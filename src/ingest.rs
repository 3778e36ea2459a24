//! Ingestion of message content as it arrives: either one bare string or a
//! list of segments tagged by their type.
use vstd::prelude::*;
use crate::content::{ChatMessageContent, ImageUrlContent, SegmentView, segment_views, concat_rendered, rendered, ChatMessage, MessageView};

verus! {

/// One element of an inbound content list: its type tag and the fields that
/// the tag may use.
#[derive(Debug, Clone, PartialEq)]
pub struct InboundSegment {
    /// The type tag, `text` or `image_url`.
    pub segment_type: String,
    /// The text of a text segment; absent or null when `None`.
    pub text: Option<String>,
    /// The image of an image segment.
    pub image_url: Option<ImageUrlContent>,
}

/// Inbound message content: a bare string or a list of tagged segments.
#[derive(Debug, Clone, PartialEq)]
pub enum InboundContent {
    Scalar(String),
    Segments(Vec<InboundSegment>),
}

/// Why inbound content could not be ingested.
#[derive(Debug, Clone, Copy, PartialEq, Eq, Structural)]
pub enum ContentError {
    /// A segment's type tag is neither `text` nor `image_url`.
    UnknownSegmentType,
    /// An `image_url` segment carries no image.
    MissingImageUrl,
}

/// The tag of a text segment.
pub open spec fn text_tag() -> Seq<char> {
    seq!['t', 'e', 'x', 't']
}

/// The tag of an image segment.
pub open spec fn image_url_tag() -> Seq<char> {
    seq!['i', 'm', 'a', 'g', 'e', '_', 'u', 'r', 'l']
}

/// The segment that an inbound element stands for. A text segment with no
/// text has the empty text.
pub open spec fn decoded_segment(s: InboundSegment) -> Result<SegmentView, ContentError> {
    if s.segment_type@ == text_tag() {
        Ok(
            SegmentView::Text(
                match s.text {
                    Some(t) => t@,
                    None => Seq::empty(),
                },
            ),
        )
    } else if s.segment_type@ == image_url_tag() {
        match s.image_url {
            Some(i) => Ok(SegmentView::Image(i.url@)),
            None => Err(ContentError::MissingImageUrl),
        }
    } else {
        Err(ContentError::UnknownSegmentType)
    }
}

/// The segments that a list of inbound elements stands for, or the error of
/// its first element that has none.
pub open spec fn decoded_segments(s: Seq<InboundSegment>) -> Result<Seq<SegmentView>, ContentError>
    decreases s.len(),
{
    if s.len() == 0 {
        Ok(Seq::empty())
    } else {
        match decoded_segments(s.drop_last()) {
            Err(e) => Err(e),
            Ok(prefix) => match decoded_segment(s.last()) {
                Err(e) => Err(e),
                Ok(v) => Ok(prefix.push(v)),
            },
        }
    }
}

/// The segments that inbound content stands for: a bare string is one text
/// segment.
pub open spec fn decoded_content(c: InboundContent) -> Result<Seq<SegmentView>, ContentError> {
    match c {
        InboundContent::Scalar(s) => Ok(seq![SegmentView::Text(s@)]),
        InboundContent::Segments(v) => decoded_segments(v@),
    }
}

/// Once a prefix of a list fails to decode, the whole list fails with the
/// same error.
proof fn lemma_error_extends(s: Seq<InboundSegment>, k: int)
    requires
        0 <= k <= s.len(),
        decoded_segments(s.subrange(0, k)) is Err,
    ensures
        decoded_segments(s) == decoded_segments(s.subrange(0, k)),
    decreases s.len(),
{
    if k == s.len() {
        assert(s.subrange(0, k) =~= s);
    } else {
        assert(s.drop_last().subrange(0, k) =~= s.subrange(0, k));
        lemma_error_extends(s.drop_last(), k);
    }
}

/// Ingesting a string as bare content gives the same segments as ingesting a
/// list that holds one text segment with that string.
pub proof fn lemma_scalar_list_equivalence(s: String, list: InboundContent)
    requires
        list is Segments,
        list->Segments_0@.len() == 1,
        list->Segments_0@[0].segment_type@ == text_tag(),
        list->Segments_0@[0].text is Some,
        list->Segments_0@[0].text->0@ == s@,
    ensures
        decoded_content(InboundContent::Scalar(s)) == decoded_content(list),
{
    let v = list->Segments_0@;
    assert(v.drop_last() =~= Seq::<InboundSegment>::empty());
    assert(decoded_segments(v.drop_last()) == Ok::<Seq<SegmentView>, ContentError>(Seq::empty()));
    assert(decoded_segment(v.last()) == Ok::<SegmentView, ContentError>(SegmentView::Text(s@)));
    assert(seq![SegmentView::Text(s@)] =~= Seq::<SegmentView>::empty().push(SegmentView::Text(s@)));
}

/// Rendering a message of one text segment, then ingesting the rendered string
/// as bare content, gives back a message equal to the first.
pub proof fn lemma_round_trip(m: ChatMessage, rendered_content: String)
    requires
        m@.content.len() == 1,
        m@.content[0] is Text,
        rendered_content@ == concat_rendered(m@.content),
    ensures
        match decoded_content(InboundContent::Scalar(rendered_content)) {
            Ok(c) => (MessageView { role: m.role, content: c }) == m@,
            Err(_) => false,
        },
{
    let c = m@.content;
    assert(c.drop_last() =~= Seq::<SegmentView>::empty());
    assert(concat_rendered(c.drop_last()) == Seq::<char>::empty());
    assert(concat_rendered(c) =~= rendered(c[0]));
    assert(seq![SegmentView::Text(rendered_content@)] =~= c);
}

/// Turns one inbound element into a segment.
pub fn decode_segment(s: &InboundSegment) -> (r: Result<ChatMessageContent, ContentError>)
    ensures
        match decoded_segment(*s) {
            Ok(v) => r is Ok && r->Ok_0@ == v,
            Err(e) => r == Err::<ChatMessageContent, ContentError>(e),
        },
{
    let text_name = "text".to_owned();
    let image_name = "image_url".to_owned();
    proof {
        reveal_strlit("text");
        reveal_strlit("image_url");
        assert(text_name@ =~= text_tag());
        assert(image_name@ =~= image_url_tag());
    }
    if s.segment_type == text_name {
        match &s.text {
            Some(t) => Ok(ChatMessageContent::text(t.clone())),
            None => Ok(ChatMessageContent::text(String::new())),
        }
    } else if s.segment_type == image_name {
        match &s.image_url {
            Some(i) => Ok(ChatMessageContent::image_url(i.url.clone())),
            None => Err(ContentError::MissingImageUrl),
        }
    } else {
        Err(ContentError::UnknownSegmentType)
    }
}

/// Turns inbound content into the segments of a message.
pub fn decode_content(c: &InboundContent) -> (r: Result<Vec<ChatMessageContent>, ContentError>)
    ensures
        match decoded_content(*c) {
            Ok(v) => r is Ok && segment_views(r->Ok_0@) == v,
            Err(e) => r == Err::<Vec<ChatMessageContent>, ContentError>(e),
        },
{
    match c {
        InboundContent::Scalar(s) => {
            let mut out: Vec<ChatMessageContent> = Vec::new();
            out.push(ChatMessageContent::text(s.clone()));
            proof {
                assert(segment_views(out@) =~= seq![SegmentView::Text(s@)]);
            }
            Ok(out)
        },
        InboundContent::Segments(v) => {
            let mut out: Vec<ChatMessageContent> = Vec::new();
            let n = v.len();
            let mut i: usize = 0;
            proof {
                assert(v@.subrange(0, 0) =~= Seq::<InboundSegment>::empty());
                assert(segment_views(out@) =~= Seq::<SegmentView>::empty());
            }
            while i < n
                invariant
                    n == v.len(),
                    decoded_content(*c) == decoded_segments(v@),
                    i <= n,
                    decoded_segments(v@.subrange(0, i as int)) == Ok::<Seq<SegmentView>, ContentError>(
                        segment_views(out@),
                    ),
                decreases n - i,
            {
                let seg = decode_segment(&v[i]);
                proof {
                    assert(v@.subrange(0, i + 1).drop_last() =~= v@.subrange(0, i as int));
                    assert(v@.subrange(0, i + 1).last() == v@[i as int]);
                }
                match seg {
                    Ok(x) => {
                        let ghost prev = out@;
                        out.push(x);
                        proof {
                            assert(segment_views(out@) =~= segment_views(prev).push(x@));
                        }
                    },
                    Err(e) => {
                        proof {
                            let pre = v@.subrange(0, i + 1);
                            assert(decoded_segment(pre.last()) == Err::<SegmentView, ContentError>(e));
                            assert(decoded_segments(pre) == Err::<Seq<SegmentView>, ContentError>(e));
                            lemma_error_extends(v@, i + 1);

                        }
                        return Err(e);
                    },
                }
                i = i + 1;
            }
            proof {
                assert(v@.subrange(0, n as int) =~= v@);
            }
            Ok(out)
        },
    }
}

} // verus!

//! The content model: roles, content segments and chat messages.
use vstd::prelude::*;
use vstd::string::StringExecFns;

verus! {

/// The sender of a message.
#[derive(Debug, Clone, Copy, PartialEq, Eq, Structural, PartialOrd, Ord, Hash)]
pub enum Role {
    /// Starting system message that sets the tone of the model.
    System,
    /// A message written by the model.
    Assistant,
    /// A message written by the user.
    User,
    /// A message related to function calls.
    Function,
}

/// The kind of a content segment.
#[derive(Debug, Clone, Copy, PartialEq, Eq, Structural, PartialOrd)]
pub enum ChatMessageType {
    /// Text content.
    Text,
    /// An image reference.
    ImageUrl,
}

/// The address of an image referred to by a message.
#[derive(Debug, Clone, PartialEq, PartialOrd)]
pub struct ImageUrlContent {
    pub url: String,
}

/// One typed unit of message content.
#[derive(Debug, Clone, PartialEq, PartialOrd)]
pub enum ChatMessageContent {
    /// Text content.
    Text { text: String },
    /// Image URL content.
    ImageUrl { image_url: ImageUrlContent },
}

/// What a content segment holds, as mathematical strings.
pub enum SegmentView {
    Text(Seq<char>),
    Image(Seq<char>),
}

impl View for ChatMessageContent {
    type V = SegmentView;

    open spec fn view(&self) -> SegmentView {
        match self {
            ChatMessageContent::Text { text } => SegmentView::Text(text@),
            ChatMessageContent::ImageUrl { image_url } => SegmentView::Image(image_url.url@),
        }
    }
}

/// The display string of one segment: the text of a text segment, the URL of
/// an image segment.
pub open spec fn rendered(s: SegmentView) -> Seq<char> {
    match s {
        SegmentView::Text(t) => t,
        SegmentView::Image(u) => u,
    }
}

/// The renders of the segments, concatenated in order with no separator.
pub open spec fn concat_rendered(s: Seq<SegmentView>) -> Seq<char>
    decreases s.len(),
{
    if s.len() == 0 {
        Seq::empty()
    } else {
        concat_rendered(s.drop_last()) + rendered(s.last())
    }
}

/// The views of a sequence of segments.
pub open spec fn segment_views(c: Seq<ChatMessageContent>) -> Seq<SegmentView> {
    c.map_values(|x: ChatMessageContent| x@)
}

impl ChatMessageContent {
    /// Creates a text segment.
    pub fn text(text: String) -> (r: Self)
        ensures
            r == (ChatMessageContent::Text { text }),
    {
        ChatMessageContent::Text { text }
    }

    /// Creates an image segment that refers to `url`.
    pub fn image_url(url: String) -> (r: Self)
        ensures
            r == (ChatMessageContent::ImageUrl { image_url: ImageUrlContent { url } }),
    {
        ChatMessageContent::ImageUrl { image_url: ImageUrlContent { url } }
    }

    /// The display string of this segment.
    pub fn render(&self) -> (r: String)
        ensures
            r@ == rendered(self@),
    {
        match self {
            ChatMessageContent::Text { text } => text.clone(),
            ChatMessageContent::ImageUrl { image_url } => image_url.url.clone(),
        }
    }
}

impl From<String> for ChatMessageContent {
    fn from(value: String) -> (r: Self) {
        ChatMessageContent::Text { text: value }
    }
}

impl vstd::std_specs::convert::FromSpecImpl<String> for ChatMessageContent {
    open spec fn obeys_from_spec() -> bool {
        true
    }

    open spec fn from_spec(v: String) -> Self {
        ChatMessageContent::Text { text: v }
    }
}

/// A message as a role and the views of its segments.
pub struct MessageView {
    pub role: Role,
    pub content: Seq<SegmentView>,
}

/// A sent or received chat message.
#[derive(Debug, Clone, PartialEq, PartialOrd)]
pub struct ChatMessage {
    /// Role of the message sender.
    pub role: Role,
    /// The content segments of the message, in order.
    pub content: Vec<ChatMessageContent>,
}

impl View for ChatMessage {
    type V = MessageView;

    open spec fn view(&self) -> MessageView {
        MessageView { role: self.role, content: segment_views(self.content@) }
    }
}

impl ChatMessage {
    /// Creates a message from a role and its segments.
    pub fn new(role: Role, content: Vec<ChatMessageContent>) -> (r: Self)
        ensures
            r.role == role,
            r.content == content,
            r@ == (MessageView { role, content: segment_views(content@) }),
    {
        ChatMessage { role, content }
    }

    /// The renders of all segments, concatenated in order with no separator.
    pub fn content(&self) -> (r: String)
        ensures
            r@ == concat_rendered(self@.content),
    {
        let mut acc = String::new();
        let n = self.content.len();
        let mut i: usize = 0;
        while i < n
            invariant
                n == self.content.len(),
                i <= n,
                acc@ == concat_rendered(segment_views(self.content@.subrange(0, i as int))),
            decreases n - i,
        {
            let piece = self.content[i].render();
            acc.append(piece.as_str());
            proof {
                let pre = self.content@.subrange(0, i as int);
                let next = self.content@.subrange(0, i + 1);
                assert(segment_views(next).drop_last() =~= segment_views(pre));
            }
            i = i + 1;
        }
        proof {
            assert(self.content@.subrange(0, n as int) =~= self.content@);
        }
        acc
    }

    /// The segments of the message.
    pub fn raw_content(&self) -> (r: &[ChatMessageContent])
        ensures
            r@ == self.content@,
    {
        self.content.as_slice()
    }
}

} // verus!

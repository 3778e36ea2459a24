//! Reassembly of streamed completion chunks into complete messages.
use vstd::prelude::*;
use vstd::string::StringExecFns;
use crate::content::{ChatMessage, ChatMessageContent, MessageView, Role, SegmentView};

verus! {

/// A single event of a streamed completion.
#[derive(Debug, Clone, PartialEq, PartialOrd, Eq, Ord)]
pub enum ResponseChunk {
    /// A piece of the content of an open response.
    Content {
        /// The piece of content.
        delta: String,
        /// The index of the response that the piece belongs to.
        response_index: usize,
    },
    /// Opens a new response, with no content yet.
    BeginResponse {
        /// The role of the respondent.
        role: Role,
        /// The index of the response.
        response_index: usize,
    },
    /// Ends one response.
    CloseResponse {
        /// The index of the response that ends.
        response_index: usize,
    },
    /// Marks the end of the stream.
    Done,
}

/// A chunk sequence sent content to a response that was never opened.
#[derive(Debug, Clone, Copy, PartialEq, Eq, Structural)]
pub struct ChunkSequenceError {
    /// The index that the content was sent to.
    pub response_index: usize,
}

/// A response slot: the role of the respondent and the text received so far.
pub type Slot = (Role, Seq<char>);

/// The slots after `chunks` have been consumed in order, or the index of the
/// first piece of content sent to a slot that is not open.
pub open spec fn reassembled(chunks: Seq<ResponseChunk>) -> Result<Seq<Slot>, usize>
    decreases chunks.len(),
{
    if chunks.len() == 0 {
        Ok(Seq::empty())
    } else {
        match reassembled(chunks.drop_last()) {
            Err(i) => Err(i),
            Ok(slots) => match chunks.last() {
                ResponseChunk::Content { delta, response_index } => {
                    if response_index < slots.len() {
                        let s = slots[response_index as int];
                        Ok(slots.update(response_index as int, (s.0, s.1 + delta@)))
                    } else {
                        Err(response_index)
                    }
                },
                ResponseChunk::BeginResponse { role, .. } => Ok(slots.push((role, Seq::empty()))),
                _ => Ok(slots),
            },
        }
    }
}

/// The finished message of a slot: its role and one text segment with all of
/// its text.
pub open spec fn slot_message(s: Slot) -> MessageView {
    MessageView { role: s.0, content: seq![SegmentView::Text(s.1)] }
}

/// The views of a sequence of messages.
pub open spec fn message_views(m: Seq<ChatMessage>) -> Seq<MessageView> {
    m.map_values(|x: ChatMessage| x@)
}

/// One frame of a streamed completion as it arrives.
#[derive(Debug, Clone)]
pub struct InboundResponseChunk {
    /// The updates carried by this frame, usually one.
    pub choices: Vec<InboundChunkChoice>,
}

/// One update of a frame: a payload and the response that it belongs to.
#[derive(Debug, Clone)]
pub struct InboundChunkChoice {
    /// What the update carries.
    pub delta: InboundChunkPayload,
    /// The index of the response that the update belongs to.
    pub index: usize,
}

/// The three shapes of an update's payload, told apart by which field is
/// present: a role, a piece of content, or neither.
#[derive(Debug, Clone)]
pub enum InboundChunkPayload {
    /// Opens a response by announcing its role.
    AnnounceRoles {
        /// The announced role.
        role: Role,
    },
    /// Carries a piece of content.
    StreamContent {
        /// The piece of content.
        content: String,
    },
    /// Closes a response.
    Close {},
}

/// Whether `r` is the chunk event that the update `c` stands for.
pub open spec fn chunk_of(c: InboundChunkChoice, r: ResponseChunk) -> bool {
    match c.delta {
        InboundChunkPayload::AnnounceRoles { role } => r == (ResponseChunk::BeginResponse {
            role,
            response_index: c.index,
        }),
        InboundChunkPayload::StreamContent { content } => r is Content && r->delta@ == content@
            && r->Content_response_index == c.index,
        InboundChunkPayload::Close {  } => r == (ResponseChunk::CloseResponse {
            response_index: c.index,
        }),
    }
}

impl InboundChunkChoice {
    /// The chunk event that this update stands for: a role opens a response,
    /// content extends one, and an empty payload closes one.
    pub fn to_response_chunk(&self) -> (r: ResponseChunk)
        ensures
            chunk_of(*self, r),
    {
        match &self.delta {
            InboundChunkPayload::AnnounceRoles { role } => ResponseChunk::BeginResponse {
                role: *role,
                response_index: self.index,
            },
            InboundChunkPayload::StreamContent { content } => ResponseChunk::Content {
                delta: content.clone(),
                response_index: self.index,
            },
            InboundChunkPayload::Close {  } => ResponseChunk::CloseResponse { response_index: self.index },
        }
    }
}

impl InboundResponseChunk {
    /// The chunk events of this frame, one per update, in order.
    pub fn to_response_chunks(&self) -> (r: Vec<ResponseChunk>)
        ensures
            r@.len() == self.choices@.len(),
            forall|k: int| 0 <= k < r@.len() ==> chunk_of(self.choices@[k], #[trigger] r@[k]),
    {
        let mut out: Vec<ResponseChunk> = Vec::new();
        let n = self.choices.len();
        let mut i: usize = 0;
        while i < n
            invariant
                n == self.choices.len(),
                i <= n,
                out@.len() == i,
                forall|k: int| 0 <= k < i ==> chunk_of(self.choices@[k], #[trigger] out@[k]),
            decreases n - i,
        {
            let c = self.choices[i].to_response_chunk();
            out.push(c);
            i = i + 1;
        }
        out
    }
}

impl ChatMessage {
    /// Reassembles the messages of a chunk stream, one per opened response,
    /// in the order in which the responses were opened.
    pub fn from_response_chunks(chunks: Vec<ResponseChunk>) -> (r: Result<Vec<ChatMessage>, ChunkSequenceError>)
        ensures
            match reassembled(chunks@) {
                Ok(slots) => r is Ok && message_views(r->Ok_0@) == slots.map_values(|s: Slot| slot_message(s)),
                Err(i) => r == Err::<Vec<ChatMessage>, ChunkSequenceError>(
                    ChunkSequenceError { response_index: i },
                ),
            },
    {
        let mut roles: Vec<Role> = Vec::new();
        let mut texts: Vec<String> = Vec::new();
        let n = chunks.len();
        let mut i: usize = 0;
        proof {
            assert(chunks@.subrange(0, 0) =~= Seq::<ResponseChunk>::empty());
            assert(Seq::new(roles.len() as nat, |k: int| (roles@[k], texts@[k]@)) =~= Seq::<Slot>::empty());
        }
        while i < n
            invariant
                n == chunks.len(),
                i <= n,
                roles.len() == texts.len(),
                reassembled(chunks@.subrange(0, i as int)) == Ok::<Seq<Slot>, usize>(
                    Seq::new(roles.len() as nat, |k: int| (roles@[k], texts@[k]@)),
                ),
            decreases n - i,
        {
            proof {
                assert(chunks@.subrange(0, i + 1).drop_last() =~= chunks@.subrange(0, i as int));
                assert(chunks@.subrange(0, i + 1).last() == chunks@[i as int]);
            }
            let ghost prev = Seq::new(roles.len() as nat, |k: int| (roles@[k], texts@[k]@));
            match &chunks[i] {
                ResponseChunk::Content { delta, response_index } => {
                    let idx = *response_index;
                    if idx >= texts.len() {
                        proof {
                            lemma_failure_extends(chunks@, i + 1);
                        }
                        return Err(ChunkSequenceError { response_index: idx });
                    }
                    texts[idx].append(delta.as_str());
                    proof {
                        let cur = Seq::new(roles.len() as nat, |k: int| (roles@[k], texts@[k]@));
                        assert(cur =~= prev.update(idx as int, (prev[idx as int].0, prev[idx as int].1 + delta@)));
                    }
                },
                ResponseChunk::BeginResponse { role, .. } => {
                    roles.push(*role);
                    texts.push(String::new());
                    proof {
                        let cur = Seq::new(roles.len() as nat, |k: int| (roles@[k], texts@[k]@));
                        assert(cur =~= prev.push((*role, Seq::empty())));
                    }
                },
                _ => {},
            }
            i = i + 1;
        }
        proof {
            assert(chunks@.subrange(0, n as int) =~= chunks@);
        }
        let ghost slots = Seq::new(roles.len() as nat, |k: int| (roles@[k], texts@[k]@));
        let mut out: Vec<ChatMessage> = Vec::new();
        let m = texts.len();
        let mut j: usize = 0;
        while j < m
            invariant
                m == texts.len(),
                m == roles.len(),
                j <= m,
                slots.len() == m,
                forall|k: int| j <= k < m ==> slots[k] == (roles@[k], texts@[k]@),
                message_views(out@) == slots.subrange(0, j as int).map_values(|s: Slot| slot_message(s)),
            decreases m - j,
        {
            let mut text = String::new();
            std::mem::swap(&mut texts[j], &mut text);
            let mut content: Vec<ChatMessageContent> = Vec::new();
            content.push(ChatMessageContent::text(text));
            let msg = ChatMessage::new(roles[j], content);
            let ghost prev = out@;
            out.push(msg);
            proof {
                assert(msg@.content =~= seq![SegmentView::Text(slots[j as int].1)]);
                assert(message_views(out@) =~= message_views(prev).push(msg@));
                assert(slots.subrange(0, j + 1).map_values(|s: Slot| slot_message(s))
                    =~= slots.subrange(0, j as int).map_values(|s: Slot| slot_message(s)).push(slot_message(slots[j as int])));
            }
            j = j + 1;
        }
        proof {
            assert(slots.subrange(0, m as int) =~= slots);
        }
        Ok(out)
    }
}

/// Once a prefix of a chunk sequence fails, the whole sequence fails at the
/// same index.
proof fn lemma_failure_extends(c: Seq<ResponseChunk>, k: int)
    requires
        0 <= k <= c.len(),
        reassembled(c.subrange(0, k)) is Err,
    ensures
        reassembled(c) == reassembled(c.subrange(0, k)),
    decreases c.len(),
{
    if k == c.len() {
        assert(c.subrange(0, k) =~= c);
    } else {
        assert(c.drop_last().subrange(0, k) =~= c.subrange(0, k));
        lemma_failure_extends(c.drop_last(), k);
    }
}

} // verus!

//! Typed chat messages and the reassembly of streamed completion chunks into
//! complete messages.

pub mod content;
pub mod ingest;
pub mod response;
pub mod stream;

pub use content::{ChatMessage, ChatMessageContent, ChatMessageType, ImageUrlContent, Role};
pub use ingest::{decode_content, decode_segment, ContentError, InboundContent, InboundSegment};
pub use response::{CompletionError, CompletionResponse, MessageChoice, ServerResponse, TokenUsage};
pub use stream::{
    ChunkSequenceError, InboundChunkChoice, InboundChunkPayload, InboundResponseChunk, ResponseChunk,
};

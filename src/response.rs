//! Responses of a completion request that was not streamed.
use vstd::prelude::*;
use crate::content::ChatMessage;

verus! {

/// A response of the service: an error or a completion.
#[derive(Debug, Clone, PartialEq, PartialOrd)]
pub enum ServerResponse {
    /// The request failed, most often because the model was overloaded.
    Error {
        /// What went wrong.
        error: CompletionError,
    },
    /// The completion succeeded.
    Completion(CompletionResponse),
}

/// An error reported by the service.
#[derive(Debug, Clone, PartialEq, PartialOrd)]
pub struct CompletionError {
    /// A description of the error.
    pub message: String,
    /// The kind of error, such as `server_error`.
    pub error_type: String,
}

/// A completed response to a completion request.
#[derive(Debug, Clone, PartialEq, PartialOrd)]
pub struct CompletionResponse {
    /// The identifier of the response.
    pub message_id: Option<String>,
    /// When the response was created, in Unix seconds.
    pub created_timestamp: Option<u64>,
    /// The model that produced the completion.
    pub model: String,
    /// The tokens spent on this completion.
    pub usage: TokenUsage,
    /// The candidate messages; the service sends at least one.
    pub message_choices: Vec<MessageChoice>,
}

impl CompletionResponse {
    /// The message of the first choice.
    pub fn message(&self) -> (r: &ChatMessage)
        requires
            self.message_choices@.len() > 0,
        ensures
            *r == self.message_choices@[0].message,
    {
        &self.message_choices[0].message
    }
}

/// One candidate message of a completion.
#[derive(Debug, Clone, PartialEq, PartialOrd)]
pub struct MessageChoice {
    /// The message.
    pub message: ChatMessage,
    /// Why the completion stopped.
    pub finish_reason: String,
    /// The position of this choice among the choices.
    pub index: u32,
}

/// The tokens spent on a completion.
#[derive(Debug, Clone, Copy, PartialEq, Eq, Structural, PartialOrd)]
pub struct TokenUsage {
    /// Tokens spent on the prompt, earlier messages included.
    pub prompt_tokens: u32,
    /// Tokens spent on the completion.
    pub completion_tokens: u32,
    /// The sum of the two.
    pub total_tokens: u32,
}

} // verus!

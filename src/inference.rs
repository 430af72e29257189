//! The parts of a chat-completion exchange with the classification service
//! that the agent reads.
use vstd::prelude::*;

verus! {

/// One message of a chat-completion request.
#[derive(Debug, Clone)]
pub struct ChatMessage {
    pub role: String,
    pub content: String,
}

/// The requested response format.
#[derive(Debug, Clone)]
pub struct ResponseFormat {
    /// Sent as `type`.
    pub format_type: String,
}

/// A chat-completion response.
#[derive(Debug, Clone)]
pub struct ChatCompletionResponse {
    pub choices: Vec<ChatChoice>,
}

#[derive(Debug, Clone)]
pub struct ChatChoice {
    pub message: Option<ChatCompletionMessage>,
}

#[derive(Debug, Clone)]
pub struct ChatCompletionMessage {
    pub content: Option<String>,
}

/// Why a response carries no verdicts.
#[derive(Debug, Clone, Copy, PartialEq, Eq, Structural)]
pub enum CompletionError {
    /// The response has no choices.
    NoChoices,
    /// The first choice has no message content.
    NoContent,
}

/// The text of the first choice, which holds the verdicts.
pub open spec fn completion_text(r: ChatCompletionResponse) -> Result<Seq<char>, CompletionError> {
    if r.choices@.len() == 0 {
        Err(CompletionError::NoChoices)
    } else {
        match r.choices@[0].message {
            Some(m) => match m.content {
                Some(c) => Ok(c@),
                None => Err(CompletionError::NoContent),
            },
            None => Err(CompletionError::NoContent),
        }
    }
}

/// Takes the text of the first choice out of a response.
pub fn completion_content(mut response: ChatCompletionResponse) -> (r: Result<String, CompletionError>)
    ensures
        match r {
            Ok(s) => completion_text(response) == Ok::<Seq<char>, CompletionError>(s@),
            Err(e) => completion_text(response) == Err::<Seq<char>, CompletionError>(e),
        },
{
    let ghost original = response;
    if response.choices.len() == 0 {
        return Err(CompletionError::NoChoices);
    }
    let first = response.choices.remove(0);
    assert(first == original.choices@[0]);
    match first.message {
        Some(m) => match m.content {
            Some(c) => Ok(c),
            None => Err(CompletionError::NoContent),
        },
        None => Err(CompletionError::NoContent),
    }
}

} // verus!

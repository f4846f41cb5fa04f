use vstd::prelude::*;
use crate::message::Message;

verus! {

/// One candidate reply of a chat completion.
pub struct Choice {
    pub index: u32,
    pub message: Message,
    pub finish_reason: Option<String>,
}

/// Token counts that the service reports for one completion.
#[derive(Clone, Copy, Debug, PartialEq, Eq, Structural)]
pub struct Usage {
    pub prompt_tokens: u32,
    pub completion_tokens: u32,
    pub total_tokens: u32,
}

/// A chat completion as the service returns it.
pub struct ChatResponse {
    pub id: String,
    pub object: String,
    pub created: u64,
    pub model: String,
    pub choices: Vec<Choice>,
    pub usage: Usage,
}

impl ChatResponse {
    /// The text of the first candidate reply, or `None` when the service
    /// returned no candidate.
    pub fn first_reply(&self) -> (r: Option<String>)
        ensures
            self.choices@.len() == 0 <==> r is None,
            r matches Some(t) ==> t@ == self.choices@[0].message.content@,
    {
        if self.choices.len() == 0 {
            None
        } else {
            Some(self.choices[0].message.content.clone())
        }
    }
}

} // verus!

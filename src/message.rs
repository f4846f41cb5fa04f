use vstd::prelude::*;

verus! {

/// Who wrote a message of the conversation.
#[derive(Clone, Copy, Debug, PartialEq, Eq, Structural)]
pub enum Role {
    System,
    User,
    Assistant,
}

/// One turn of the conversation: a role and its text.
#[derive(Clone, Debug)]
pub struct Message {
    pub role: Role,
    pub content: String,
}

impl View for Message {
    type V = (Role, Seq<char>);

    open spec fn view(&self) -> (Role, Seq<char>) {
        (self.role, self.content@)
    }
}

impl Message {
    /// A message written by the user.
    pub fn user(content: &str) -> (r: Message)
        ensures
            r@ == (Role::User, content@),
    {
        Message { role: Role::User, content: content.to_owned() }
    }

    /// A reply of the assistant.
    pub fn assistant(content: &str) -> (r: Message)
        ensures
            r@ == (Role::Assistant, content@),
    {
        Message { role: Role::Assistant, content: content.to_owned() }
    }

    /// The instruction that frames the whole conversation.
    pub fn system(content: &str) -> (r: Message)
        ensures
            r@ == (Role::System, content@),
    {
        Message { role: Role::System, content: content.to_owned() }
    }

    /// A message of the given role.
    pub fn new(role: Role, content: &str) -> (r: Message)
        ensures
            r@ == (role, content@),
    {
        Message { role, content: content.to_owned() }
    }
}

} // verus!

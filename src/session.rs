use vstd::prelude::*;
use crate::command::{Command, classify_line, command_in};
use crate::failure::{FailureCategory, category_of, classify_failure};
use crate::history::{Conversation, trimmed};
use crate::message::Role;
use crate::text::{lower_of, trim_view, lemma_white_trims_to_empty, lowercase, trim_text, white_space};

verus! {

/// Where a session stands between two events.
#[derive(Clone, Copy, Debug, PartialEq, Eq, Structural)]
pub enum Phase {
    /// Waiting for the next line of input.
    AwaitingInput,
    /// A chat message was sent; waiting for the reply.
    AwaitingReply,
    /// The session is over; nothing happens any more.
    ShuttingDown,
}

/// What the driver of a session does after an event.
#[derive(Clone, Copy, Debug, PartialEq, Eq, Structural)]
pub enum Action {
    /// Nothing to show: read the next line.
    ReadLine,
    /// Show the available commands.
    ShowHelp,
    /// Clear the displayed log.
    ClearLog,
    /// Show the displayed log.
    ShowLog,
    /// Report an unknown command with a hint.
    UnknownCommand,
    /// Show the user's message and send the whole conversation.
    Send,
    /// Show the reply that arrived.
    ShowReply,
    /// Report the failed call, with the hint for its category.
    ShowFailure(FailureCategory),
    /// The user asked to leave: say goodbye.
    Farewell,
    /// A cancellation arrived: report it and say goodbye.
    Interrupted,
    /// The input could not be read: report it and say goodbye.
    InputFailed,
    /// The event does not apply in this phase: do nothing.
    Idle,
}

/// The action that a classified line of input calls for.
pub open spec fn action_for(c: Command) -> Action {
    match c {
        Command::Empty => Action::ReadLine,
        Command::Help => Action::ShowHelp,
        Command::Clear => Action::ClearLog,
        Command::History => Action::ShowLog,
        Command::Exit => Action::Farewell,
        Command::Unknown => Action::UnknownCommand,
        Command::Chat => Action::Send,
    }
}

/// One chat session: its phase and its conversation.
pub struct Session {
    pub phase: Phase,
    pub history: Conversation,
}

impl Session {
    pub open spec fn wf(&self) -> bool {
        self.history.wf()
    }

    /// A session that waits for input, with a conversation that holds only
    /// its instruction.
    pub fn new(instruction: &str) -> (r: Session)
        ensures
            r.wf(),
            r.phase == Phase::AwaitingInput,
            r.history@ == seq![(Role::System, instruction@)],
    {
        Session { phase: Phase::AwaitingInput, history: Conversation::new(instruction) }
    }

    /// A line of input arrived. The text of a chat message, without the white
    /// space around it, is appended as a user turn and is to be sent; a
    /// command or a blank line leaves the conversation as it is.
    pub fn on_line(&mut self, line: &str) -> (r: Action)
        requires
            old(self).wf(),
        ensures
            final(self).wf(),
            old(self).phase != Phase::AwaitingInput ==> *final(self) == *old(self) && r
                == Action::Idle,
            old(self).phase == Phase::AwaitingInput ==> {
                &&& r == action_for(command_in(line@))
                &&& command_in(line@) == Command::Chat ==> {
                    &&& final(self).history@ == old(self).history@.push(
                        (Role::User, trim_view(line@)),
                    )
                    &&& final(self).phase == Phase::AwaitingReply
                }
                &&& command_in(line@) == Command::Exit ==> {
                    &&& final(self).history@ == old(self).history@
                    &&& final(self).phase == Phase::ShuttingDown
                }
                &&& command_in(line@) != Command::Chat && command_in(line@) != Command::Exit
                    ==> {
                    &&& final(self).history@ == old(self).history@
                    &&& final(self).phase == Phase::AwaitingInput
                }
            },
    {
        if self.phase != Phase::AwaitingInput {
            return Action::Idle;
        }
        let text = trim_text(line);
        let folded = lowercase(text);
        let command = classify_line(text, folded.as_str());
        match command {
            Command::Empty => Action::ReadLine,
            Command::Help => Action::ShowHelp,
            Command::Clear => Action::ClearLog,
            Command::History => Action::ShowLog,
            Command::Unknown => Action::UnknownCommand,
            Command::Exit => {
                self.phase = Phase::ShuttingDown;
                Action::Farewell
            },
            Command::Chat => {
                self.history.append(Role::User, text);
                self.phase = Phase::AwaitingReply;
                Action::Send
            },
        }
    }

    /// The reply to the message sent arrived: it is appended as an assistant
    /// turn, and the conversation is trimmed.
    pub fn on_reply(&mut self, text: &str) -> (r: Action)
        requires
            old(self).wf(),
        ensures
            final(self).wf(),
            old(self).phase != Phase::AwaitingReply ==> *final(self) == *old(self) && r
                == Action::Idle,
            old(self).phase == Phase::AwaitingReply ==> {
                &&& final(self).history@ == trimmed(
                    old(self).history@.push((Role::Assistant, text@)),
                )
                &&& final(self).phase == Phase::AwaitingInput
                &&& r == Action::ShowReply
            },
    {
        if self.phase != Phase::AwaitingReply {
            return Action::Idle;
        }
        self.history.append(Role::Assistant, text);
        self.history.trim();
        self.phase = Phase::AwaitingInput;
        Action::ShowReply
    }

    /// The call for the message sent failed with the given message: the
    /// failure is classified, and the user's message stays in the conversation.
    pub fn on_failure(&mut self, message: &str) -> (r: Action)
        requires
            old(self).wf(),
        ensures
            final(self).wf(),
            old(self).phase != Phase::AwaitingReply ==> *final(self) == *old(self) && r
                == Action::Idle,
            old(self).phase == Phase::AwaitingReply ==> {
                &&& final(self).history@ == old(self).history@
                &&& final(self).phase == Phase::AwaitingInput
                &&& r == Action::ShowFailure(category_of(lower_of(message@)))
            },
    {
        if self.phase != Phase::AwaitingReply {
            return Action::Idle;
        }
        let category = classify_failure(message);
        self.phase = Phase::AwaitingInput;
        Action::ShowFailure(category)
    }

    /// A cancellation arrived: the session ends at once, with the
    /// conversation as it stands and no reply awaited any more.
    pub fn on_cancel(&mut self) -> (r: Action)
        requires
            old(self).wf(),
        ensures
            final(self).wf(),
            final(self).history@ == old(self).history@,
            final(self).phase == Phase::ShuttingDown,
            old(self).phase == Phase::ShuttingDown ==> r == Action::Idle,
            old(self).phase != Phase::ShuttingDown ==> r == Action::Interrupted,
    {
        if self.phase == Phase::ShuttingDown {
            return Action::Idle;
        }
        self.phase = Phase::ShuttingDown;
        Action::Interrupted
    }

    /// The input could not be read: the session ends.
    pub fn on_input_error(&mut self) -> (r: Action)
        requires
            old(self).wf(),
        ensures
            final(self).wf(),
            old(self).phase != Phase::AwaitingInput ==> *final(self) == *old(self) && r
                == Action::Idle,
            old(self).phase == Phase::AwaitingInput ==> {
                &&& final(self).history@ == old(self).history@
                &&& final(self).phase == Phase::ShuttingDown
                &&& r == Action::InputFailed
            },
    {
        if self.phase != Phase::AwaitingInput {
            return Action::Idle;
        }
        self.phase = Phase::ShuttingDown;
        Action::InputFailed
    }

    /// Whether the session is over.
    pub fn is_finished(&self) -> (r: bool)
        ensures
            r == (self.phase == Phase::ShuttingDown),
    {
        self.phase == Phase::ShuttingDown
    }
}

/// A line of white space alone is no command and no message: the session
/// only reads on, with its conversation unchanged and nothing sent.
pub proof fn lemma_blank_line_is_skipped(line: Seq<char>)
    requires
        forall|k: int| 0 <= k < line.len() ==> white_space(#[trigger] line[k]),
    ensures
        command_in(line) == Command::Empty,
        action_for(command_in(line)) == Action::ReadLine,
{
    lemma_white_trims_to_empty(line);
}

} // verus!

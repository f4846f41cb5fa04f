use vstd::prelude::*;
use crate::text::{lower_of, trim_view, white_space, lemma_trim_surrounded, lowercase, same_text, starts_with_char, trim_text};

verus! {

/// What one line of input asks for.
#[derive(Clone, Copy, Debug, PartialEq, Eq, Structural)]
pub enum Command {
    /// Nothing but white space.
    Empty,
    /// `/help`: show the available commands.
    Help,
    /// `/clear`: clear the displayed log.
    Clear,
    /// `/history`: show the displayed log.
    History,
    /// `/exit` or `/quit`: end the session.
    Exit,
    /// Any other line that starts with `/`.
    Unknown,
    /// An ordinary message for the assistant.
    Chat,
}

/// How the session goes on after a line of input.
#[derive(Clone, Copy, Debug, PartialEq, Eq, Structural)]
pub enum CommandResult {
    /// The line was dealt with; nothing is sent.
    Handled,
    /// The line is a chat message.
    NotHandled,
    /// The user asked to end the session.
    Exit,
}

/// The command in a trimmed line `line`, given `folded`, its lower-case form.
pub open spec fn command_of(line: Seq<char>, folded: Seq<char>) -> Command {
    if line.len() == 0 {
        Command::Empty
    } else if folded == "/help"@ {
        Command::Help
    } else if folded == "/clear"@ {
        Command::Clear
    } else if folded == "/history"@ {
        Command::History
    } else if folded == "/exit"@ || folded == "/quit"@ {
        Command::Exit
    } else if line[0] == '/' {
        Command::Unknown
    } else {
        Command::Chat
    }
}

/// The command in a raw line of input: trimmed, then matched without regard to case.
pub open spec fn command_in(input: Seq<char>) -> Command {
    command_of(trim_view(input), lower_of(trim_view(input)))
}

pub open spec fn outcome_of(c: Command) -> CommandResult {
    match c {
        Command::Exit => CommandResult::Exit,
        Command::Chat => CommandResult::NotHandled,
        _ => CommandResult::Handled,
    }
}

impl Command {
    /// How the session goes on after this command.
    pub fn outcome(self) -> (r: CommandResult)
        ensures
            r == outcome_of(self),
    {
        match self {
            Command::Exit => CommandResult::Exit,
            Command::Chat => CommandResult::NotHandled,
            _ => CommandResult::Handled,
        }
    }
}

/// Classifies a trimmed line, given its lower-case form.
pub fn classify_line(line: &str, folded: &str) -> (r: Command)
    ensures
        r == command_of(line@, folded@),
{
    if line.is_empty() {
        Command::Empty
    } else if same_text(folded, "/help") {
        Command::Help
    } else if same_text(folded, "/clear") {
        Command::Clear
    } else if same_text(folded, "/history") {
        Command::History
    } else if same_text(folded, "/exit") || same_text(folded, "/quit") {
        Command::Exit
    } else if starts_with_char(line, '/') {
        Command::Unknown
    } else {
        Command::Chat
    }
}

/// Classifies a raw line of input.
pub fn classify_command(input: &str) -> (r: Command)
    ensures
        r == command_in(input@),
{
    let line = trim_text(input);
    let folded = lowercase(line);
    classify_line(line, folded.as_str())
}

/// A recognised command word, in any case and with white space around it,
/// never counts as a chat message: the three display commands are handled
/// and the two exit words end the session.
pub proof fn lemma_recognized_commands(before: Seq<char>, word: Seq<char>, after: Seq<char>)
    requires
        forall|k: int| 0 <= k < before.len() ==> white_space(#[trigger] before[k]),
        forall|k: int| 0 <= k < after.len() ==> white_space(#[trigger] after[k]),
        word.len() > 0,
        !white_space(word[0]),
        !white_space(word.last()),
        lower_of(word) == "/help"@ || lower_of(word) == "/clear"@ || lower_of(word)
            == "/history"@ || lower_of(word) == "/exit"@ || lower_of(word) == "/quit"@,
    ensures
        command_in(before + word + after) != Command::Chat,
        outcome_of(command_in(before + word + after)) != CommandResult::NotHandled,
        outcome_of(command_in(before + word + after)) == CommandResult::Exit <==> (lower_of(word)
            == "/exit"@ || lower_of(word) == "/quit"@),
{
    lemma_trim_surrounded(before, word, after);
    reveal_strlit("/help");
    reveal_strlit("/clear");
    reveal_strlit("/history");
    reveal_strlit("/exit");
    reveal_strlit("/quit");
    assert("/help"@[1] != "/exit"@[1] && "/help"@[1] != "/quit"@[1]);
    assert("/clear"@.len() != "/exit"@.len() && "/clear"@.len() != "/quit"@.len());
    assert("/history"@.len() != "/exit"@.len() && "/history"@.len() != "/quit"@.len());
}

/// A line that starts with `/` and is no recognised command is handled as
/// an unknown command, never sent as chat.
pub proof fn lemma_unknown_commands(input: Seq<char>)
    requires
        trim_view(input).len() > 0,
        trim_view(input)[0] == '/',
        lower_of(trim_view(input)) != "/help"@,
        lower_of(trim_view(input)) != "/clear"@,
        lower_of(trim_view(input)) != "/history"@,
        lower_of(trim_view(input)) != "/exit"@,
        lower_of(trim_view(input)) != "/quit"@,
    ensures
        command_in(input) == Command::Unknown,
        outcome_of(command_in(input)) == CommandResult::Handled,
{
}

} // verus!

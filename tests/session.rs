use deepseek_chat::failure::FailureCategory;
use deepseek_chat::message::Role;
use deepseek_chat::response::{ChatResponse, Choice, Usage};
use deepseek_chat::session::{Action, Phase, Session};
use deepseek_chat::settings::{check_settings, ConfigError};
use deepseek_chat::message::Message;

fn contents(s: &Session) -> Vec<String> {
    s.history.messages().iter().map(|m| m.content.clone()).collect()
}

#[test]
fn one_exchange() {
    let mut s = Session::new("system");
    assert_eq!(s.on_line("Hello"), Action::Send);
    assert_eq!(s.phase, Phase::AwaitingReply);
    assert_eq!(s.on_reply("Hi there"), Action::ShowReply);
    assert_eq!(s.phase, Phase::AwaitingInput);
    assert_eq!(s.history.len(), 3);
    let m = s.history.messages();
    assert_eq!(m[0].role, Role::System);
    assert_eq!(m[1].role, Role::User);
    assert_eq!(m[1].content, "Hello");
    assert_eq!(m[2].role, Role::Assistant);
    assert_eq!(m[2].content, "Hi there");
}

#[test]
fn twenty_exchanges_fill_the_bound() {
    let mut s = Session::new("system");
    for i in 1..=20 {
        assert_eq!(s.on_line(&format!("question {}", i)), Action::Send);
        assert_eq!(s.on_reply(&format!("answer {}", i)), Action::ShowReply);
    }
    assert_eq!(s.history.len(), 41);
    let c = contents(&s);
    assert_eq!(c[1], "question 1");
    assert_eq!(c[40], "answer 20");
}

#[test]
fn twenty_one_exchanges() {
    let mut s = Session::new("system");
    for i in 1..=21 {
        assert_eq!(s.on_line(&format!("question {}", i)), Action::Send);
        assert_eq!(s.on_reply(&format!("answer {}", i)), Action::ShowReply);
    }
    // 43 messages exceed the bound: the instruction and the latest 20 remain
    assert_eq!(s.history.len(), 21);
    let c = contents(&s);
    assert_eq!(s.history.messages()[0].role, Role::System);
    assert_eq!(c[0], "system");
    assert_eq!(c[1], "question 12");
    assert_eq!(c[2], "answer 12");
    assert_eq!(c[20], "answer 21");
}

#[test]
fn twenty_two_exchanges_trim() {
    let mut s = Session::new("system");
    for i in 1..=22 {
        s.on_line(&format!("q{}", i));
        s.on_reply(&format!("a{}", i));
    }
    assert_eq!(s.history.len(), 23);
    assert_eq!(contents(&s)[1], "q12");
    assert_eq!(contents(&s)[22], "a22");
}

#[test]
fn cancel_while_waiting_for_reply() {
    let mut s = Session::new("system");
    s.on_line("Hello");
    assert_eq!(s.on_cancel(), Action::Interrupted);
    assert_eq!(s.phase, Phase::ShuttingDown);
    assert!(s.is_finished());
    assert_eq!(s.on_reply("late"), Action::Idle);
    assert_eq!(s.on_cancel(), Action::Idle);
    assert_eq!(s.on_line("more"), Action::Idle);
    assert_eq!(contents(&s), vec!["system".to_string(), "Hello".to_string()]);
}

#[test]
fn cancel_while_waiting_for_input() {
    let mut s = Session::new("system");
    assert_eq!(s.on_cancel(), Action::Interrupted);
    assert_eq!(s.history.len(), 1);
    assert_eq!(s.on_input_error(), Action::Idle);
}

#[test]
fn blank_line_changes_nothing() {
    let mut s = Session::new("system");
    assert_eq!(s.on_line("   "), Action::ReadLine);
    assert_eq!(s.on_line(""), Action::ReadLine);
    assert_eq!(s.on_line("\t \n"), Action::ReadLine);
    assert_eq!(s.history.len(), 1);
    assert_eq!(s.phase, Phase::AwaitingInput);
}

#[test]
fn unknown_command_changes_nothing() {
    let mut s = Session::new("system");
    assert_eq!(s.on_line("/nope"), Action::UnknownCommand);
    assert_eq!(s.history.len(), 1);
    assert_eq!(s.phase, Phase::AwaitingInput);
}

#[test]
fn display_commands() {
    let mut s = Session::new("system");
    assert_eq!(s.on_line(" /Help "), Action::ShowHelp);
    assert_eq!(s.on_line("/CLEAR"), Action::ClearLog);
    assert_eq!(s.on_line("/history"), Action::ShowLog);
    assert_eq!(s.history.len(), 1);
    assert_eq!(s.on_line("/Quit"), Action::Farewell);
    assert_eq!(s.phase, Phase::ShuttingDown);
}

#[test]
fn chat_text_is_trimmed() {
    let mut s = Session::new("system");
    assert_eq!(s.on_line("  Hello  "), Action::Send);
    assert_eq!(contents(&s)[1], "Hello");
}

#[test]
fn failed_call_keeps_user_message() {
    let mut s = Session::new("system");
    s.on_line("Hello");
    assert_eq!(
        s.on_failure("API request failed with status 401 Unauthorized"),
        Action::ShowFailure(FailureCategory::AuthFailure)
    );
    assert_eq!(s.phase, Phase::AwaitingInput);
    assert_eq!(contents(&s), vec!["system".to_string(), "Hello".to_string()]);
    s.on_line("Again");
    assert_eq!(s.on_failure("Boom"), Action::ShowFailure(FailureCategory::Unclassified));
    assert_eq!(s.history.len(), 3);
}

#[test]
fn reply_without_request_is_ignored() {
    let mut s = Session::new("system");
    assert_eq!(s.on_reply("stray"), Action::Idle);
    assert_eq!(s.on_failure("stray"), Action::Idle);
    assert_eq!(s.history.len(), 1);
}

#[test]
fn input_error_ends_session() {
    let mut s = Session::new("system");
    assert_eq!(s.on_input_error(), Action::InputFailed);
    assert!(s.is_finished());
}

#[test]
fn settings_checks() {
    assert_eq!(check_settings("key", true, 4096, 300), Ok(()));
    assert_eq!(check_settings("", true, 4096, 300), Err(ConfigError::EmptyApiKey));
    assert_eq!(check_settings("key", false, 4096, 300), Err(ConfigError::TemperatureOutOfRange));
    assert_eq!(check_settings("key", true, 0, 300), Err(ConfigError::ZeroMaxTokens));
    assert_eq!(check_settings("key", true, 1, 0), Err(ConfigError::ZeroTimeout));
    assert_eq!(check_settings("", false, 0, 0), Err(ConfigError::EmptyApiKey));
}

fn response(choices: Vec<Choice>) -> ChatResponse {
    ChatResponse {
        id: "id".to_string(),
        object: "chat.completion".to_string(),
        created: 1,
        model: "deepseek-chat".to_string(),
        choices,
        usage: Usage { prompt_tokens: 1, completion_tokens: 2, total_tokens: 3 },
    }
}

#[test]
fn first_reply_of_response() {
    let r = response(vec![
        Choice { index: 0, message: Message::assistant("first"), finish_reason: None },
        Choice { index: 1, message: Message::assistant("second"), finish_reason: Some("stop".to_string()) },
    ]);
    assert_eq!(r.first_reply(), Some("first".to_string()));
    assert_eq!(response(vec![]).first_reply(), None);
}

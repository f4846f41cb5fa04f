use deepseek_chat::history::{Conversation, KEPT_RECENT, MAX_MESSAGES};
use deepseek_chat::message::{Message, Role};

fn filled(n: usize) -> Conversation {
    let mut c = Conversation::new("be helpful");
    for i in 1..n {
        let role = if i % 2 == 1 { Role::User } else { Role::Assistant };
        c.append(role, &format!("m{}", i));
    }
    c
}

#[test]
fn constructors_set_role_and_content() {
    let u = Message::user("Hello");
    assert_eq!(u.role, Role::User);
    assert_eq!(u.content, "Hello");
    let a = Message::assistant("Hi there");
    assert_eq!(a.role, Role::Assistant);
    assert_eq!(a.content, "Hi there");
    let s = Message::system("frame");
    assert_eq!(s.role, Role::System);
    assert_eq!(s.content, "frame");
}

#[test]
fn new_conversation_holds_instruction() {
    let c = Conversation::new("be helpful");
    assert_eq!(c.len(), 1);
    assert_eq!(c.messages()[0].role, Role::System);
    assert_eq!(c.messages()[0].content, "be helpful");
}

#[test]
fn append_adds_at_tail() {
    let mut c = Conversation::new("sys");
    c.append(Role::User, "Hello");
    c.append(Role::Assistant, "Hi there");
    assert_eq!(c.len(), 3);
    assert_eq!(c.messages()[1].content, "Hello");
    assert_eq!(c.messages()[2].role, Role::Assistant);
}

#[test]
fn trim_at_bound_is_noop() {
    let mut c = filled(MAX_MESSAGES);
    assert_eq!(c.len(), 41);
    c.trim();
    assert_eq!(c.len(), 41);
    c.trim();
    assert_eq!(c.len(), 41);
    assert_eq!(c.messages()[1].content, "m1");
}

#[test]
fn trim_past_bound_keeps_latest_twenty() {
    let mut c = filled(42);
    c.trim();
    assert_eq!(c.len(), KEPT_RECENT + 1);
    assert_eq!(c.len(), 21);
    assert_eq!(c.messages()[0].role, Role::System);
    assert_eq!(c.messages()[0].content, "be helpful");
    for i in 0..20 {
        assert_eq!(c.messages()[i + 1].content, format!("m{}", 22 + i));
    }
}

#[test]
fn trim_of_long_buffer_drops_to_twenty_one() {
    let mut c = filled(60);
    c.trim();
    assert_eq!(c.len(), 21);
    assert_eq!(c.messages()[1].content, "m40");
    assert_eq!(c.messages()[20].content, "m59");
}

#[test]
fn appends_with_trims_stay_bounded() {
    let mut c = Conversation::new("sys");
    for i in 0..100 {
        let role = if i % 2 == 0 { Role::User } else { Role::Assistant };
        c.append(role, "x");
        c.trim();
        assert!(c.len() <= 41);
        assert_eq!(c.messages()[0].role, Role::System);
        assert!(c.messages()[1..].iter().all(|m| m.role != Role::System));
    }
}

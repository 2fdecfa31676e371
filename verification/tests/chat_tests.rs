use chat_view::chat::{avatar_for, Chat, Msg};
use chat_view::codec::DecodeError;
use chat_view::text::is_blank;

fn users_envelope(names: &[&str]) -> String {
    let quoted: Vec<String> = names.iter().map(|n| format!("\"{}\"", n)).collect();
    format!(
        "{{\"messageType\":\"users\",\"dataArray\":[{}]}}",
        quoted.join(",")
    )
}

fn message_envelope(from: &str, message: &str) -> String {
    format!(
        "{{\"messageType\":\"message\",\"data\":\"{{\\\"from\\\":\\\"{}\\\",\\\"message\\\":\\\"{}\\\"}}\"}}",
        from, message
    )
}

#[test]
fn create_sends_register_and_starts_empty() {
    let (chat, register) = Chat::create("alice");
    assert_eq!(
        register,
        "{\"messageType\":\"register\",\"data\":\"alice\",\"dataArray\":null}"
    );
    assert!(chat.users.is_empty());
    assert!(chat.messages.is_empty());
    assert!(!chat.is_typing);
}

#[test]
fn users_envelope_replaces_roster_in_order() {
    let (mut chat, _) = Chat::create("me");
    let eff = chat
        .update(Msg::HandleMsg(users_envelope(&["alice", "bob"])))
        .unwrap();
    assert!(eff.render);
    assert_eq!(eff.outbound, None);
    assert!(!eff.clear_input);
    assert_eq!(chat.users.len(), 2);
    assert_eq!(chat.users[0].name, "alice");
    assert_eq!(chat.users[1].name, "bob");
    assert_eq!(
        chat.users[0].avatar,
        "https://avatars.dicebear.com/api/adventurer-neutral/alice.svg"
    );
    assert_eq!(
        chat.users[1].avatar,
        "https://avatars.dicebear.com/api/adventurer-neutral/bob.svg"
    );
}

#[test]
fn roster_is_replaced_wholesale() {
    let (mut chat, _) = Chat::create("me");
    chat.update(Msg::HandleMsg(users_envelope(&["alice", "bob"]))).unwrap();
    chat.update(Msg::HandleMsg(users_envelope(&["carol"]))).unwrap();
    assert_eq!(chat.users.len(), 1);
    assert_eq!(chat.users[0].name, "carol");
}

#[test]
fn empty_roster_accepted() {
    let (mut chat, _) = Chat::create("me");
    chat.update(Msg::HandleMsg(users_envelope(&["alice"]))).unwrap();
    let eff = chat.update(Msg::HandleMsg(users_envelope(&[]))).unwrap();
    assert!(eff.render);
    assert!(chat.users.is_empty());
}

#[test]
fn message_envelope_appends_one_line() {
    let (mut chat, _) = Chat::create("me");
    let eff = chat
        .update(Msg::HandleMsg(message_envelope("bob", "hi there")))
        .unwrap();
    assert!(eff.render);
    assert_eq!(chat.messages.len(), 1);
    assert_eq!(chat.messages[0].from, "bob");
    assert_eq!(chat.messages[0].message, "hi there");
    chat.update(Msg::HandleMsg(message_envelope("bob", "again"))).unwrap();
    assert_eq!(chat.messages.len(), 2);
    assert_eq!(chat.messages[1].message, "again");
}

#[test]
fn malformed_chat_payload_is_discarded() {
    let (mut chat, _) = Chat::create("me");
    chat.update(Msg::HandleMsg(message_envelope("bob", "kept"))).unwrap();
    let eff = chat
        .update(Msg::HandleMsg(
            "{\"messageType\":\"message\",\"data\":\"not json\"}".to_string(),
        ))
        .unwrap();
    assert!(!eff.render);
    assert_eq!(chat.messages.len(), 1);
    let eff = chat
        .update(Msg::HandleMsg(
            "{\"messageType\":\"message\",\"data\":\"{\\\"from\\\":\\\"x\\\"}\"}".to_string(),
        ))
        .unwrap();
    assert!(!eff.render);
    assert_eq!(chat.messages.len(), 1);
}

#[test]
fn inbound_register_is_a_noop() {
    let (mut chat, _) = Chat::create("me");
    let eff = chat
        .update(Msg::HandleMsg(
            "{\"messageType\":\"register\",\"data\":\"eve\"}".to_string(),
        ))
        .unwrap();
    assert!(!eff.render);
    assert!(chat.users.is_empty());
    assert!(chat.messages.is_empty());
}

#[test]
fn decode_failure_propagates_and_leaves_state() {
    let (mut chat, _) = Chat::create("me");
    chat.update(Msg::HandleMsg(users_envelope(&["alice"]))).unwrap();
    let r = chat.update(Msg::HandleMsg("garbage".to_string()));
    assert_eq!(r, Err(DecodeError::Malformed));
    assert_eq!(chat.users.len(), 1);
    assert!(chat.messages.is_empty());
}

#[test]
fn typing_boundary_flips_once() {
    let (mut chat, _) = Chat::create("me");
    let eff = chat.update(Msg::TypingChanged("a".to_string())).unwrap();
    assert!(eff.render);
    assert!(chat.is_typing);
    let eff = chat.update(Msg::TypingChanged("ab".to_string())).unwrap();
    assert!(!eff.render);
    assert!(chat.is_typing);
    let eff = chat.update(Msg::TypingChanged("".to_string())).unwrap();
    assert!(eff.render);
    assert!(!chat.is_typing);
    let eff = chat.update(Msg::TypingChanged("".to_string())).unwrap();
    assert!(!eff.render);
}

#[test]
fn blank_submit_is_a_noop() {
    let (mut chat, _) = Chat::create("me");
    chat.update(Msg::HandleMsg(users_envelope(&["alice"]))).unwrap();
    chat.update(Msg::HandleMsg(message_envelope("alice", "hi"))).unwrap();
    chat.update(Msg::TypingChanged("   ".to_string())).unwrap();
    let typing_before = chat.is_typing;
    let eff = chat.update(Msg::SubmitMessage("   ".to_string())).unwrap();
    assert!(!eff.render);
    assert_eq!(eff.outbound, None);
    assert!(!eff.clear_input);
    assert_eq!(chat.users.len(), 1);
    assert_eq!(chat.messages.len(), 1);
    assert_eq!(chat.is_typing, typing_before);
}

#[test]
fn submit_hello_sends_exactly_one_envelope() {
    let (mut chat, _) = Chat::create("me");
    chat.update(Msg::TypingChanged("hello".to_string())).unwrap();
    assert!(chat.is_typing);
    let eff = chat.update(Msg::SubmitMessage("hello".to_string())).unwrap();
    assert_eq!(
        eff.outbound,
        Some("{\"messageType\":\"message\",\"data\":\"hello\",\"dataArray\":null}".to_string())
    );
    assert!(eff.clear_input);
    assert!(eff.render);
    assert!(!chat.is_typing);
}

#[test]
fn submit_keeps_raw_untrimmed_text() {
    let (mut chat, _) = Chat::create("me");
    let eff = chat.update(Msg::SubmitMessage("  hi  ".to_string())).unwrap();
    assert_eq!(
        eff.outbound,
        Some("{\"messageType\":\"message\",\"data\":\"  hi  \",\"dataArray\":null}".to_string())
    );
}

#[test]
fn avatar_url_template() {
    assert_eq!(
        avatar_for("zoe"),
        "https://avatars.dicebear.com/api/adventurer-neutral/zoe.svg"
    );
}

#[test]
fn blank_detection() {
    assert!(is_blank(""));
    assert!(is_blank("   "));
    assert!(is_blank(" \t\r\n"));
    assert!(is_blank("\u{3000}\u{00A0}"));
    assert!(!is_blank(" a "));
}

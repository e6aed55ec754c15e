use chat_session::chat::{
    command, format_line, handle_event, is_whitespace_char, parse_command, roulette_actions, same_str, ChatAction,
    ChatEvent,
};

fn reply_text(a: &ChatAction) -> &str {
    match a {
        ChatAction::Reply { text } => text.as_str(),
        ChatAction::Ban { .. } => panic!("expected a reply"),
    }
}

#[test]
fn parses_command_name_and_argument() {
    let c = parse_command("?!roulette now please").unwrap();
    assert_eq!(c.name, "roulette");
    assert_eq!(c.rest.as_deref(), Some("now"));
    let c = parse_command("?!  roulette\t").unwrap();
    assert_eq!(c.name, "roulette");
    assert!(c.rest.is_none());
}

#[test]
fn text_without_prefix_or_word_is_no_command() {
    assert!(parse_command("roulette").is_none());
    assert!(parse_command("?roulette").is_none());
    assert!(parse_command("?!").is_none());
    assert!(parse_command("?!   ").is_none());
    assert!(parse_command("").is_none());
}

#[test]
fn unicode_whitespace_separates_words() {
    assert!(is_whitespace_char('\u{3000}'));
    assert!(!is_whitespace_char('x'));
    let c = parse_command("?!héllo\u{3000}wörld").unwrap();
    assert_eq!(c.name, "héllo");
    assert_eq!(c.rest.as_deref(), Some("wörld"));
}

#[test]
fn chat_message_is_printed_and_parsed() {
    let e = ChatEvent::Message { chatter_name: "alice".to_string(), text: "?!roulette".to_string() };
    let r = handle_event(&e, "2024-01-01T00:00:00Z");
    assert_eq!(r.line.as_deref(), Some("[2024-01-01T00:00:00Z] alice: ?!roulette"));
    assert_eq!(r.command.unwrap().name, "roulette");
}

#[test]
fn notification_without_chatter_is_anonymous() {
    let e = ChatEvent::Notification { chatter_name: None, text: "subscribed".to_string() };
    let r = handle_event(&e, "t");
    assert_eq!(r.line.as_deref(), Some("[t] anonymous: subscribed"));
    assert!(r.command.is_none());
    let e = ChatEvent::Notification { chatter_name: Some("bob".to_string()), text: "hi".to_string() };
    assert_eq!(handle_event(&e, "t").line.as_deref(), Some("[t] bob: hi"));
}

#[test]
fn other_events_are_ignored() {
    let r = handle_event(&ChatEvent::Other, "t");
    assert!(r.line.is_none() && r.command.is_none());
}

#[test]
fn sixth_chamber_replies_and_bans() {
    let acts = roulette_actions(6, "carol");
    assert_eq!(acts.len(), 2);
    assert_eq!(reply_text(&acts[0]), "carol took a chance with the revolver, and it went bang! Bye bye carol");
    match &acts[1] {
        ChatAction::Ban { reason, duration_secs } => {
            assert_eq!(reason, "Bro got shot!");
            assert_eq!(*duration_secs, 180);
        },
        ChatAction::Reply { .. } => panic!("expected a ban"),
    }
}

#[test]
fn other_chambers_spare_the_chatter() {
    let acts = roulette_actions(3, "dave");
    assert_eq!(acts.len(), 1);
    assert_eq!(
        reply_text(&acts[0]),
        "dave took a chance with the revolver, it clicks, and dave is spared to chat another day!"
    );
}

#[test]
fn roulette_command_spins_once() {
    for _ in 0..50 {
        let acts = command("roulette", "erin");
        assert!(acts.len() == 1 || acts.len() == 2);
        assert!(reply_text(&acts[0]).starts_with("erin took a chance with the revolver"));
    }
    assert!(command("dance", "erin").is_empty());
}

#[test]
fn line_format_and_text_equality() {
    assert_eq!(format_line("ts", "u", "x"), "[ts] u: x");
    assert!(same_str("abc", "abc"));
    assert!(!same_str("abc", "abd"));
    assert!(!same_str("abc", "ab"));
}

use tg_gpt::chat_data::ChatMember;
use tg_gpt::gpt::{first_choice, ChatMessage, ChatMessageJson, Gpt, GptError, Role};
use tg_gpt::json::frame_turn;
use tg_gpt::update::{TgMessage, User};

fn turn(id: u64, name: &str, content: &str) -> ChatMessage {
    ChatMessage {
        user: ChatMember { id, name: Some(id.to_string()) },
        text: ChatMessageJson { user_name: name.to_string(), content: content.to_string() },
    }
}

fn contents(turns: &Vec<ChatMessage>) -> Vec<String> {
    turns.iter().map(|t| t.text.content.clone()).collect()
}

fn window(capacity: usize) -> Gpt {
    Gpt::new("gpt-3.5-turbo-0301".to_string(), "Be brief.".to_string(), capacity)
}

#[test]
fn new_window_is_empty() {
    let gpt = window(3);
    assert_eq!(gpt.len(), 0);
    assert!(!gpt.is_full());
    assert_eq!(gpt.messages_capacity(), 3);
    assert_eq!(gpt.model_name(), "gpt-3.5-turbo-0301");
    assert_eq!(gpt.system_prompt(), "Be brief.");
}

#[test]
fn pushing_capacity_turns_flushes_once_in_arrival_order() {
    let mut gpt = window(3);
    assert!(gpt.query(vec![turn(1, "A", "one")]).is_none());
    assert_eq!(gpt.len(), 1);
    assert!(gpt.query(vec![turn(2, "B", "two")]).is_none());
    assert_eq!(gpt.len(), 2);
    let flushed = gpt.query(vec![turn(3, "C", "three")]).expect("a full window");
    assert_eq!(contents(&flushed), vec!["one", "two", "three"]);
    assert_eq!(gpt.len(), 0);
    assert!(!gpt.is_full());
    assert!(gpt.query(vec![]).is_none());
}

#[test]
fn push_trims_the_oldest_turns() {
    let mut gpt = window(2);
    gpt.push(vec![turn(1, "A", "1"), turn(1, "A", "2"), turn(1, "A", "3")]);
    assert_eq!(gpt.len(), 2);
    assert!(gpt.is_full());
    let held = gpt.drain();
    assert_eq!(contents(&held), vec!["2", "3"]);
    assert_eq!(gpt.len(), 0);
}

#[test]
fn query_with_a_long_history_flushes_the_newest_turns() {
    let mut gpt = window(3);
    assert!(gpt.query(vec![turn(1, "A", "a"), turn(1, "A", "b")]).is_none());
    let flushed = gpt
        .query(vec![turn(1, "A", "c"), turn(1, "A", "d"), turn(1, "A", "e")])
        .expect("a full window");
    assert_eq!(contents(&flushed), vec!["c", "d", "e"]);
    assert_eq!(gpt.len(), 0);
}

#[test]
fn drain_of_a_partial_window_hands_out_what_is_there() {
    let mut gpt = window(5);
    gpt.push(vec![turn(1, "A", "x"), turn(2, "B", "y")]);
    assert!(!gpt.is_full());
    assert_eq!(contents(&gpt.drain()), vec!["x", "y"]);
    assert_eq!(gpt.len(), 0);
    assert!(gpt.drain().is_empty());
}

#[test]
fn window_of_capacity_zero_is_always_full() {
    let mut gpt = window(0);
    assert!(gpt.is_full());
    let flushed = gpt.query(vec![turn(1, "A", "x")]).expect("a full window");
    assert!(flushed.is_empty());
    assert_eq!(gpt.len(), 0);
}

#[test]
fn turn_is_written_as_a_json_object() {
    let text = ChatMessageJson { user_name: "Bob".to_string(), content: "hi".to_string() };
    assert_eq!(text.to_json().unwrap(), "{\"user_name\":\"Bob\",\"content\":\"hi\"}");
}

#[test]
fn json_escapes_quotes_and_control_characters() {
    let text = ChatMessageJson {
        user_name: "Al \"the\" B\\".to_string(),
        content: "line\nnext\ttab \u{1} é".to_string(),
    };
    assert_eq!(
        text.to_json().unwrap(),
        "{\"user_name\":\"Al \\\"the\\\" B\\\\\",\"content\":\"line\\nnext\\ttab \\u0001 é\"}"
    );
}

#[test]
fn json_object_parses_back() {
    let text = ChatMessageJson { user_name: "Z\"\\/".to_string(), content: "\u{8}\u{c}\r".to_string() };
    let json = text.to_json().unwrap();
    let value: serde_json::Value = serde_json::from_str(&json).unwrap();
    assert_eq!(value.get("user_name").and_then(|v| v.as_str()), Some("Z\"\\/"));
    assert_eq!(value.get("content").and_then(|v| v.as_str()), Some("\u{8}\u{c}\r"));
    assert_eq!(value.as_object().unwrap().len(), 2);
}

#[test]
fn frame_turn_puts_the_members_in_order() {
    assert_eq!(frame_turn("\"a\"", "\"b\""), "{\"user_name\":\"a\",\"content\":\"b\"}");
    assert_eq!(frame_turn("", ""), "{\"user_name\":,\"content\":}");
}

#[test]
fn request_opens_with_the_prompt_and_carries_each_turn() {
    let gpt = window(2);
    let turns = vec![turn(7, "Ann", "hello"), turn(8, "Ben", "bye")];
    let messages = gpt.request(&turns).unwrap().expect("a request");
    assert_eq!(messages.len(), 3);
    assert_eq!(messages[0].role, Role::System);
    assert_eq!(messages[0].name, None);
    assert_eq!(messages[0].content, "Be brief.");
    assert_eq!(messages[1].role, Role::User);
    assert_eq!(messages[1].name, Some("7".to_string()));
    assert_eq!(messages[1].content, "{\"user_name\":\"Ann\",\"content\":\"hello\"}");
    assert_eq!(messages[2].role, Role::User);
    assert_eq!(messages[2].name, Some("8".to_string()));
    assert_eq!(messages[2].content, "{\"user_name\":\"Ben\",\"content\":\"bye\"}");
}

#[test]
fn request_of_a_partial_window_is_none() {
    let gpt = window(3);
    let turns = vec![turn(7, "Ann", "hello"), turn(8, "Ben", "bye")];
    assert!(gpt.request(&turns).unwrap().is_none());
    assert!(gpt.request(&vec![]).unwrap().is_none());
}

#[test]
fn first_choice_is_the_reply() {
    assert_eq!(first_choice(vec!["a".to_string(), "b".to_string()]), Ok("a".to_string()));
    assert_eq!(first_choice(vec![]), Err(GptError::NoChoices));
}

#[test]
fn turn_of_a_message_takes_the_full_name_and_the_text() {
    let message = TgMessage {
        id: 5,
        chat_id: -9,
        from: Some(User { id: 42, first_name: "Ann".to_string(), last_name: Some("Lee".to_string()) }),
        text: Some("hello".to_string()),
    };
    let text = ChatMessageJson::from(&message);
    assert_eq!(text.user_name, "Ann Lee");
    assert_eq!(text.content, "hello");
    let turn = ChatMessage::from(&message);
    assert_eq!(turn.user, ChatMember { id: 42, name: Some("42".to_string()) });
    assert_eq!(turn.text.user_name, "Ann Lee");
    assert_eq!(turn.text.content, "hello");
}

#[test]
fn turn_of_a_message_without_sender_or_text_is_empty() {
    let message = TgMessage { id: 5, chat_id: -9, from: None, text: None };
    let turn = ChatMessage::from(&message);
    assert_eq!(turn.user, ChatMember { id: 0, name: None });
    assert_eq!(turn.text.user_name, "");
    assert_eq!(turn.text.content, "");
}

#[test]
fn full_name_without_last_name_is_the_first_name() {
    let user = User { id: 1, first_name: "Ann".to_string(), last_name: None };
    assert_eq!(user.full_name(), "Ann");
    let user = User { id: 1, first_name: "".to_string(), last_name: Some("Lee".to_string()) };
    assert_eq!(user.full_name(), " Lee");
}

#[test]
fn full_window_always_makes_a_request() {
    let every_control: String = (0u8..32).map(|b| b as char).collect();
    let texts = [
        "".to_string(),
        every_control,
        "\"\\\u{7f}\u{80}\u{2028}\u{ffff}\u{10ffff} 😀".to_string(),
        "x".repeat(10_000),
    ];
    for text in texts {
        let gpt = window(1);
        let turns = vec![turn(1, &text, &text)];
        let messages = gpt.request(&turns).expect("no error").expect("a request");
        assert_eq!(messages.len(), 2);
        let value: serde_json::Value = serde_json::from_str(&messages[1].content).unwrap();
        assert_eq!(value.get("user_name").and_then(|v| v.as_str()), Some(text.as_str()));
        assert_eq!(value.get("content").and_then(|v| v.as_str()), Some(text.as_str()));
        assert!(turns[0].text.to_json().is_ok());
    }
}

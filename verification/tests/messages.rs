use tg_gpt::db::messages::{parse_message, parse_unknown, upd_kind_to_string, Message};
use tg_gpt::db::parse_update;
use tg_gpt::db::permissions::Permissions;
use tg_gpt::update::{TgMessage, Update, UpdateKind, User};

fn message(id: i32, chat_id: i64, sender: Option<u64>, text: Option<&str>) -> TgMessage {
    TgMessage {
        id,
        chat_id,
        from: sender.map(|id| User { id, first_name: "Ann".to_string(), last_name: None }),
        text: text.map(|t| t.to_string()),
    }
}

#[test]
fn kinds_have_their_tags() {
    let m = || message(1, 2, None, None);
    assert_eq!(upd_kind_to_string(&UpdateKind::Message(m())), "Message");
    assert_eq!(upd_kind_to_string(&UpdateKind::EditedMessage(m())), "EditedMessage");
    assert_eq!(upd_kind_to_string(&UpdateKind::ChannelPost(m())), "ChannelPost");
    assert_eq!(upd_kind_to_string(&UpdateKind::EditedChannelPost(m())), "EditedChannelPost");
    assert_eq!(upd_kind_to_string(&UpdateKind::InlineQuery), "InlineQuery");
    assert_eq!(upd_kind_to_string(&UpdateKind::ChosenInlineResult), "ChosenInlineResult");
    assert_eq!(upd_kind_to_string(&UpdateKind::CallbackQuery), "CallbackQuery");
    assert_eq!(upd_kind_to_string(&UpdateKind::ShippingQuery), "ShippingQuery");
    assert_eq!(upd_kind_to_string(&UpdateKind::PreCheckoutQuery), "PreCheckoutQuery");
    assert_eq!(upd_kind_to_string(&UpdateKind::Poll), "Poll");
    assert_eq!(upd_kind_to_string(&UpdateKind::PollAnswer), "PollAnswer");
    assert_eq!(upd_kind_to_string(&UpdateKind::MyChatMember), "MyChatMember");
    assert_eq!(upd_kind_to_string(&UpdateKind::ChatMember), "ChatMember");
    assert_eq!(upd_kind_to_string(&UpdateKind::ChatJoinRequest), "ChatJoinRequest");
    assert_eq!(upd_kind_to_string(&UpdateKind::Error), "Error");
}

#[test]
fn parse_message_keeps_chat_number_sender_and_text() {
    let parts = parse_message(&message(11, -5, Some(42), Some("hi")));
    assert_eq!(parts, (Some(-5), Some(11), Some(42), Some("hi".to_string())));
    let parts = parse_message(&message(12, 6, None, None));
    assert_eq!(parts, (Some(6), Some(12), None, None));
    assert_eq!(parse_unknown(), (None, None, None, None));
}

#[test]
fn row_of_a_message_update() {
    let update = Update {
        id: 10,
        kind: UpdateKind::EditedMessage(message(3, -77, Some(9), Some("text"))),
        raw: Some("{}".to_string()),
    };
    let row = Message::from(&update);
    assert_eq!(row.update_id, 10);
    assert_eq!(row.chat_id, Some(-77));
    assert_eq!(row.message_id, Some(3));
    assert_eq!(row.kind, "EditedMessage");
    assert_eq!(row.from_id, Some(9));
    assert_eq!(row.content, Some("text".to_string()));
    assert_eq!(row.raw, Some("{}".to_string()));
}

#[test]
fn row_of_an_update_without_message() {
    let update = Update { id: 11, kind: UpdateKind::PollAnswer, raw: None };
    let row = Message::from(&update);
    assert_eq!(row.update_id, 11);
    assert_eq!(row.chat_id, None);
    assert_eq!(row.message_id, None);
    assert_eq!(row.kind, "PollAnswer");
    assert_eq!(row.from_id, None);
    assert_eq!(row.content, None);
    assert_eq!(row.raw, None);
}

#[test]
fn insert_values_write_the_numbers_as_text() {
    let update = Update {
        id: 10,
        kind: UpdateKind::Message(message(3, -1001234567890, Some(18446744073709551615), Some("t"))),
        raw: None,
    };
    let values = Message::from(&update).insert_values();
    assert_eq!(values.update_id, 10);
    assert_eq!(values.kind, "Message");
    assert_eq!(values.chat_id, Some("-1001234567890".to_string()));
    assert_eq!(values.message_id, Some(3));
    assert_eq!(values.from_id, Some("18446744073709551615".to_string()));
    assert_eq!(values.content, Some("t".to_string()));
    assert_eq!(values.raw, None);

    let values = Message::from(&Update { id: 1, kind: UpdateKind::Poll, raw: None }).insert_values();
    assert_eq!(values.chat_id, None);
    assert_eq!(values.from_id, None);
}

#[test]
fn short_record_of_an_update() {
    let update = Update {
        id: 10,
        kind: UpdateKind::Message(message(3, -77, Some(9), Some("text"))),
        raw: Some("{}".to_string()),
    };
    assert_eq!(
        parse_update(&update),
        (10, -77, Some("9".to_string()), Some("text".to_string()), None)
    );
    let update = Update {
        id: 12,
        kind: UpdateKind::ChannelPost(message(3, -77, Some(9), Some("text"))),
        raw: None,
    };
    assert_eq!(parse_update(&update), (12, 0, None, None, None));
}

#[test]
fn set_bot_admin_changes_the_flag_alone() {
    let mut p = Permissions { user_id: 5, is_bot_admin: false, custom_tag: Some("x".to_string()) };
    p.set_bot_admin();
    assert!(p.is_bot_admin);
    assert_eq!(p.user_id, 5);
    assert_eq!(p.custom_tag, Some("x".to_string()));
    p.set_bot_admin();
    assert!(p.is_bot_admin);
}

use tg_gpt::conf::{write_conf_value, ConfError, ConfKey, ConfValue};
use tg_gpt::gpt::{Gpt, Role};
use tg_gpt::orchestrator::{load, Action, Event, Fatal, Orchestrator, State, Step};
use tg_gpt::store::{ConfStore, EventLog};
use tg_gpt::update::{TgMessage, Update, UpdateKind, User};

fn said(id: i32, chat_id: i64, text: &str) -> Update {
    Update {
        id,
        kind: UpdateKind::Message(TgMessage {
            id: id + 100,
            chat_id,
            from: Some(User { id: 7, first_name: "Ann".to_string(), last_name: None }),
            text: Some(text.to_string()),
        }),
        raw: None,
    }
}

fn fresh(capacity: usize) -> Orchestrator {
    Orchestrator::new(Gpt::new("model".to_string(), "Be brief.".to_string(), capacity), 10, 5)
}

fn started(capacity: usize, offset: Option<&str>, chat_id: &str) -> Orchestrator {
    let mut o = fresh(capacity);
    let action = o.handle(Event::Loaded {
        offset: offset.map(|t| t.to_string()),
        chat_id: Some(chat_id.to_string()),
    });
    assert!(matches!(action, Action::Fetch(_)));
    o
}

fn save(store: &mut ConfStore, cursor: Option<i64>) {
    let raw = write_conf_value(ConfKey::Offset, &cursor.map(ConfValue::Integer)).unwrap();
    store.write(ConfKey::Offset, raw);
}

#[test]
fn three_turns_over_two_batches_flush_once_and_the_cursor_ends_at_14() {
    let mut conf = ConfStore::new();
    conf.migrate();
    conf.write(ConfKey::ChatId, Some("1".to_string()));
    let mut log = EventLog::new();
    let mut o = fresh(3);

    let action = o.handle(Event::Loaded {
        offset: conf.read(ConfKey::Offset),
        chat_id: conf.read(ConfKey::ChatId),
    });
    match action {
        Action::Fetch(request) => {
            assert_eq!(request.offset, None);
            assert_eq!(request.timeout, 10);
        }
        other => panic!("unexpected {:?}", other),
    }
    assert_eq!(o.state(), State::Polling);
    assert_eq!(o.chat_id(), 1);

    let batch = vec![said(10, 1, "one"), said(11, 2, "elsewhere"), said(12, 1, "two")];
    match o.handle(Event::Fetched(batch)) {
        Action::Persist(rows) => {
            assert_eq!(rows.len(), 3);
            log.append_batch(rows);
        }
        other => panic!("unexpected {:?}", other),
    }
    assert_eq!(log.len(), 3);
    match o.handle(Event::Persisted) {
        Action::SaveCursor(cursor) => {
            assert_eq!(cursor, Some(13));
            save(&mut conf, cursor);
        }
        other => panic!("unexpected {:?}", other),
    }
    assert_eq!(o.window_len(), 2);
    assert_eq!(o.cursor(), None);
    match o.handle(Event::CursorSaved) {
        Action::Fetch(request) => assert_eq!(request.offset, Some(13)),
        other => panic!("unexpected {:?}", other),
    }
    assert_eq!(o.cursor(), Some(13));

    match o.handle(Event::Fetched(vec![said(13, 1, "three")])) {
        Action::Persist(rows) => {
            assert_eq!(rows.len(), 1);
            log.append_batch(rows);
        }
        other => panic!("unexpected {:?}", other),
    }
    match o.handle(Event::Persisted) {
        Action::Complete(messages) => {
            assert_eq!(messages.len(), 4);
            assert_eq!(messages[0].role, Role::System);
            assert_eq!(messages[0].content, "Be brief.");
            assert_eq!(messages[1].content, "{\"user_name\":\"Ann\",\"content\":\"one\"}");
            assert_eq!(messages[2].content, "{\"user_name\":\"Ann\",\"content\":\"two\"}");
            assert_eq!(messages[3].content, "{\"user_name\":\"Ann\",\"content\":\"three\"}");
            assert_eq!(messages[3].role, Role::User);
            assert_eq!(messages[3].name, Some("7".to_string()));
        }
        other => panic!("unexpected {:?}", other),
    }
    assert_eq!(o.window_len(), 0);
    assert_eq!(o.step(), Step::Completing);
    match o.handle(Event::Completed(vec!["reply".to_string()])) {
        Action::Send { chat_id, text } => {
            assert_eq!(chat_id, 1);
            assert_eq!(text, "reply");
        }
        other => panic!("unexpected {:?}", other),
    }
    match o.handle(Event::Sent) {
        Action::SaveCursor(cursor) => {
            assert_eq!(cursor, Some(14));
            save(&mut conf, cursor);
        }
        other => panic!("unexpected {:?}", other),
    }
    match o.handle(Event::CursorSaved) {
        Action::Fetch(request) => assert_eq!(request.offset, Some(14)),
        other => panic!("unexpected {:?}", other),
    }
    assert_eq!(o.cursor(), Some(14));
    assert_eq!(conf.read(ConfKey::Offset), Some("14".to_string()));
    assert_eq!(log.len(), 4);
    assert_eq!(o.window_len(), 0);
}

#[test]
fn missing_chat_is_fatal() {
    let mut o = fresh(3);
    match o.handle(Event::Loaded { offset: Some("5".to_string()), chat_id: None }) {
        Action::Fail(Fatal::Configuration(ConfError::Missing { key })) => {
            assert_eq!(key, ConfKey::ChatId)
        }
        other => panic!("unexpected {:?}", other),
    }
    assert_eq!(o.state(), State::Stopped);
    assert!(matches!(o.handle(Event::Woke), Action::Wait));
}

#[test]
fn corrupt_settings_are_fatal() {
    let mut o = fresh(3);
    match o.handle(Event::Loaded { offset: None, chat_id: Some("abc".to_string()) }) {
        Action::Fail(Fatal::Configuration(ConfError::Invalid { key, value })) => {
            assert_eq!(key, ConfKey::ChatId);
            assert_eq!(value, "abc");
        }
        other => panic!("unexpected {:?}", other),
    }
    let mut o = fresh(3);
    match o.handle(Event::Loaded { offset: Some("1.5".to_string()), chat_id: Some("1".to_string()) }) {
        Action::Fail(Fatal::Configuration(ConfError::Invalid { key, value })) => {
            assert_eq!(key, ConfKey::Offset);
            assert_eq!(value, "1.5");
        }
        other => panic!("unexpected {:?}", other),
    }
    assert_eq!(o.state(), State::Stopped);
}

#[test]
fn load_reads_cursor_and_chat() {
    assert!(matches!(load(&None, &Some("-7".to_string())), Ok((None, -7))));
    assert!(matches!(load(&Some("14".to_string()), &Some("1".to_string())), Ok((Some(14), 1))));
    assert!(matches!(
        load(&Some("x".to_string()), &None),
        Err(ConfError::Missing { key: ConfKey::ChatId })
    ));
}

#[test]
fn failed_fetch_waits_and_polls_again_from_the_same_cursor() {
    let mut o = started(3, Some("20"), "1");
    match o.handle(Event::FetchFailed) {
        Action::Sleep { seconds } => assert_eq!(seconds, 5),
        other => panic!("unexpected {:?}", other),
    }
    assert_eq!(o.state(), State::Backoff);
    assert!(matches!(o.handle(Event::Fetched(vec![])), Action::Wait));
    match o.handle(Event::Woke) {
        Action::Fetch(request) => assert_eq!(request.offset, Some(20)),
        other => panic!("unexpected {:?}", other),
    }
    assert_eq!(o.state(), State::Polling);
    assert_eq!(o.cursor(), Some(20));
}

#[test]
fn empty_batch_leaves_the_cursor() {
    let mut o = started(3, Some("20"), "1");
    match o.handle(Event::Fetched(vec![])) {
        Action::Persist(rows) => assert!(rows.is_empty()),
        other => panic!("unexpected {:?}", other),
    }
    assert!(matches!(o.handle(Event::Persisted), Action::SaveCursor(Some(20))));
    assert!(matches!(o.handle(Event::CursorSaved), Action::Fetch(_)));
    assert_eq!(o.cursor(), Some(20));
}

#[test]
fn cancellation_stops_between_iterations_only() {
    let mut o = started(3, None, "1");
    assert!(matches!(o.handle(Event::Fetched(vec![said(1, 1, "a")])), Action::Persist(_)));
    assert!(matches!(o.handle(Event::Cancelled), Action::Wait));
    assert_eq!(o.state(), State::Polling);
    assert!(matches!(o.handle(Event::Persisted), Action::SaveCursor(Some(2))));
    assert!(matches!(o.handle(Event::Cancelled), Action::Wait));
    assert!(matches!(o.handle(Event::CursorSaved), Action::Fetch(_)));
    assert!(matches!(o.handle(Event::Cancelled), Action::Stop));
    assert_eq!(o.state(), State::Stopped);
    assert_eq!(o.cursor(), Some(2));
    assert!(matches!(o.handle(Event::Fetched(vec![])), Action::Wait));

    let mut o = started(3, None, "1");
    assert!(matches!(o.handle(Event::FetchFailed), Action::Sleep { .. }));
    assert!(matches!(o.handle(Event::Cancelled), Action::Stop));
    assert_eq!(o.state(), State::Stopped);
}

#[test]
fn failed_persistence_refetches_once_and_then_gives_up() {
    let mut o = started(3, Some("5"), "1");
    assert!(matches!(o.handle(Event::Fetched(vec![said(5, 1, "a")])), Action::Persist(_)));
    match o.handle(Event::PersistFailed) {
        Action::Fetch(request) => assert_eq!(request.offset, Some(5)),
        other => panic!("unexpected {:?}", other),
    }
    assert_eq!(o.cursor(), Some(5));
    assert_eq!(o.window_len(), 0);
    assert!(matches!(o.handle(Event::Fetched(vec![said(5, 1, "a")])), Action::Persist(_)));
    assert!(matches!(o.handle(Event::PersistFailed), Action::Fail(Fatal::Persistence)));
    assert_eq!(o.state(), State::Stopped);
    assert_eq!(o.cursor(), Some(5));
}

#[test]
fn stored_cursor_clears_an_earlier_failure() {
    let mut o = started(3, Some("5"), "1");
    assert!(matches!(o.handle(Event::Fetched(vec![said(5, 2, "a")])), Action::Persist(_)));
    assert!(matches!(o.handle(Event::PersistFailed), Action::Fetch(_)));
    assert!(matches!(o.handle(Event::Fetched(vec![said(5, 2, "a")])), Action::Persist(_)));
    assert!(matches!(o.handle(Event::Persisted), Action::SaveCursor(Some(6))));
    assert!(matches!(o.handle(Event::CursorSaved), Action::Fetch(_)));
    assert!(matches!(o.handle(Event::Fetched(vec![said(6, 2, "b")])), Action::Persist(_)));
    assert!(matches!(o.handle(Event::Persisted), Action::SaveCursor(Some(7))));
    match o.handle(Event::CursorSaveFailed) {
        Action::Fetch(request) => assert_eq!(request.offset, Some(6)),
        other => panic!("unexpected {:?}", other),
    }
    assert_eq!(o.cursor(), Some(6));
}

#[test]
fn failed_completion_does_not_hold_the_cursor_back() {
    let mut o = started(1, None, "1");
    assert!(matches!(o.handle(Event::Fetched(vec![said(3, 1, "a")])), Action::Persist(_)));
    assert!(matches!(o.handle(Event::Persisted), Action::Complete(_)));
    assert!(matches!(o.handle(Event::CompletionFailed), Action::SaveCursor(Some(4))));
    assert!(matches!(o.handle(Event::CursorSaved), Action::Fetch(_)));
    assert_eq!(o.cursor(), Some(4));
    assert_eq!(o.window_len(), 0);
}

#[test]
fn empty_or_missing_reply_is_not_sent() {
    let mut o = started(1, None, "1");
    assert!(matches!(o.handle(Event::Fetched(vec![said(3, 1, "a")])), Action::Persist(_)));
    assert!(matches!(o.handle(Event::Persisted), Action::Complete(_)));
    assert!(matches!(o.handle(Event::Completed(vec![])), Action::SaveCursor(Some(4))));

    let mut o = started(1, None, "1");
    assert!(matches!(o.handle(Event::Fetched(vec![said(3, 1, "a")])), Action::Persist(_)));
    assert!(matches!(o.handle(Event::Persisted), Action::Complete(_)));
    assert!(matches!(
        o.handle(Event::Completed(vec!["".to_string(), "b".to_string()])),
        Action::SaveCursor(Some(4))
    ));
}

#[test]
fn failed_send_is_not_fatal() {
    let mut o = started(1, None, "1");
    assert!(matches!(o.handle(Event::Fetched(vec![said(3, 1, "a")])), Action::Persist(_)));
    assert!(matches!(o.handle(Event::Persisted), Action::Complete(_)));
    assert!(matches!(o.handle(Event::Completed(vec!["r".to_string()])), Action::Send { .. }));
    assert_eq!(o.step(), Step::Sending);
    assert!(matches!(o.handle(Event::SendFailed), Action::SaveCursor(Some(4))));
    assert!(matches!(o.handle(Event::CursorSaved), Action::Fetch(_)));
    assert_eq!(o.cursor(), Some(4));
}

#[test]
fn updates_of_other_chats_never_reach_the_window() {
    let mut o = started(2, None, "1");
    let batch = vec![
        said(1, 2, "a"),
        said(2, 3, "b"),
        Update { id: 3, kind: UpdateKind::MyChatMember, raw: None },
        said(4, -1, "c"),
    ];
    assert!(matches!(o.handle(Event::Fetched(batch)), Action::Persist(_)));
    assert!(matches!(o.handle(Event::Persisted), Action::SaveCursor(Some(5))));
    assert_eq!(o.window_len(), 0);
}

#[test]
fn restart_after_a_lost_cursor_adds_no_rows_and_passes_the_batch() {
    let mut conf = ConfStore::new();
    conf.migrate();
    conf.write(ConfKey::ChatId, Some("1".to_string()));
    save(&mut conf, Some(10));
    let mut log = EventLog::new();

    let mut o = fresh(5);
    o.handle(Event::Loaded { offset: conf.read(ConfKey::Offset), chat_id: conf.read(ConfKey::ChatId) });
    let batch = || vec![said(10, 1, "a"), said(11, 1, "b"), said(12, 2, "c")];
    match o.handle(Event::Fetched(batch())) {
        Action::Persist(rows) => log.append_batch(rows),
        other => panic!("unexpected {:?}", other),
    }
    assert!(matches!(o.handle(Event::Persisted), Action::SaveCursor(Some(13))));
    assert_eq!(log.len(), 3);

    conf.migrate();
    assert_eq!(conf.len(), 3);
    assert_eq!(conf.read(ConfKey::Offset), Some("10".to_string()));
    let mut o = fresh(5);
    match o.handle(Event::Loaded {
        offset: conf.read(ConfKey::Offset),
        chat_id: conf.read(ConfKey::ChatId),
    }) {
        Action::Fetch(request) => assert_eq!(request.offset, Some(10)),
        other => panic!("unexpected {:?}", other),
    }
    match o.handle(Event::Fetched(batch())) {
        Action::Persist(rows) => log.append_batch(rows),
        other => panic!("unexpected {:?}", other),
    }
    assert_eq!(log.len(), 3);
    match o.handle(Event::Persisted) {
        Action::SaveCursor(cursor) => {
            assert_eq!(cursor, Some(13));
            save(&mut conf, cursor);
        }
        other => panic!("unexpected {:?}", other),
    }
    assert!(matches!(o.handle(Event::CursorSaved), Action::Fetch(_)));
    assert_eq!(o.cursor(), Some(13));
    assert_eq!(conf.read(ConfKey::Offset), Some("13".to_string()));
}

#[test]
fn events_that_do_not_fit_are_ignored() {
    let mut o = fresh(3);
    assert!(matches!(o.handle(Event::Fetched(vec![])), Action::Wait));
    assert!(matches!(o.handle(Event::Cancelled), Action::Wait));
    assert_eq!(o.state(), State::Init);
    let mut o = started(3, None, "1");
    assert!(matches!(o.handle(Event::Persisted), Action::Wait));
    assert!(matches!(o.handle(Event::CursorSaved), Action::Wait));
    assert!(matches!(o.handle(Event::Completed(vec!["x".to_string()])), Action::Wait));
    assert!(matches!(
        o.handle(Event::Loaded { offset: None, chat_id: Some("2".to_string()) }),
        Action::Wait
    ));
    assert_eq!(o.state(), State::Polling);
    assert_eq!(o.step(), Step::Fetching);
    assert_eq!(o.chat_id(), 1);
}

#[test]
fn filling_the_window_asks_for_one_completion() {
    let mut o = started(3, None, "1");
    let batch = vec![said(1, 1, "a"), said(2, 1, "b"), said(3, 1, "c")];
    assert!(matches!(o.handle(Event::Fetched(batch)), Action::Persist(_)));
    match o.handle(Event::Persisted) {
        Action::Complete(messages) => {
            assert_eq!(messages.len(), 4);
            assert_eq!(messages[0].content, "Be brief.");
            assert_eq!(messages[1].content, "{\"user_name\":\"Ann\",\"content\":\"a\"}");
            assert_eq!(messages[2].content, "{\"user_name\":\"Ann\",\"content\":\"b\"}");
            assert_eq!(messages[3].content, "{\"user_name\":\"Ann\",\"content\":\"c\"}");
        }
        other => panic!("unexpected {:?}", other),
    }
    assert_eq!(o.window_len(), 0);
    assert!(matches!(o.handle(Event::Persisted), Action::Wait));
    assert!(matches!(o.handle(Event::Completed(vec!["r".to_string()])), Action::Send { .. }));
    assert!(matches!(o.handle(Event::Completed(vec!["r".to_string()])), Action::Wait));
    assert!(matches!(o.handle(Event::Sent), Action::SaveCursor(Some(4))));
    assert!(matches!(o.handle(Event::CursorSaved), Action::Fetch(_)));
    assert!(matches!(o.handle(Event::Fetched(vec![])), Action::Persist(_)));
    assert!(matches!(o.handle(Event::Persisted), Action::SaveCursor(Some(4))));
    assert_eq!(o.window_len(), 0);
}

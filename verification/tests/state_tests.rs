use imessage_reader::model::{Chat, ChatRow, MessageRow, Sender};
use imessage_reader::slot::SlotState;
use imessage_reader::state::{AppState, LoadError};
use imessage_reader::timestamp::normalize;

fn message_row(text: &str, date_raw: i64, from_me: bool) -> MessageRow {
    MessageRow {
        text: text.to_string(),
        date_raw,
        handle: if from_me { None } else { Some("other".to_string()) },
        is_from_me: from_me,
    }
}

/// A fresh viewer has nothing loaded and nothing selected.
#[test]
fn fresh_state_is_empty() {
    let app = AppState::new();
    assert!(matches!(app.chats.get(), SlotState::Empty));
    assert!(app.selected_chat.is_none());
    assert!(matches!(app.selected_chat_messages.get(), SlotState::Empty));
}

/// Startup marks the conversation list as loading; a resolved fetch
/// stores the mapped conversations.
#[test]
fn initial_load_then_finish() {
    let mut app = AppState::new();
    app.initial_load();
    assert!(matches!(app.chats.get(), SlotState::Fetching));
    let rows = vec![
        ChatRow { name: "alice".to_string(), last_active_raw: 2_000_000_000 },
        ChatRow { name: "bob".to_string(), last_active_raw: 1_000_000_000 },
    ];
    let failure = app.finish_chats_load(Ok(rows));
    assert!(failure.is_none());
    match app.chats.get() {
        SlotState::Ready(cs) => {
            assert_eq!(cs.len(), 2);
            assert_eq!(cs[0].name, "alice");
            assert_eq!(cs[0].last_active.secs, 978_307_202);
            assert_eq!(cs[1].name, "bob");
        }
        _ => panic!("conversation list not ready"),
    }
}

/// A failed fetch leaves the slot's loading marker in place and hands
/// the error back.
#[test]
fn failed_chat_load_stays_fetching() {
    let mut app = AppState::new();
    app.initial_load();
    let failure = app.finish_chats_load(Err(LoadError { message: "no such table".to_string() }));
    assert_eq!(failure, Some(LoadError { message: "no such table".to_string() }));
    assert!(matches!(app.chats.get(), SlotState::Fetching));
}

/// Selecting records the conversation and marks its messages loading.
#[test]
fn select_sets_selection_and_starts_message_load() {
    let mut app = AppState::new();
    let alice = Chat { name: "alice".to_string(), last_active: normalize(0) };
    app.select(alice.clone());
    assert_eq!(app.selected_chat, Some(alice));
    assert!(matches!(app.selected_chat_messages.get(), SlotState::Fetching));
}

/// Selecting conversation A then immediately conversation B: the
/// message slot ends up with whichever load resolved later — here the
/// stale load for A resolves after B's, so A's messages win even though
/// B is the selection.
#[test]
fn overlapping_selection_loads_last_completion_wins() {
    let mut app = AppState::new();
    let a = Chat { name: "alice".to_string(), last_active: normalize(0) };
    let b = Chat { name: "bob".to_string(), last_active: normalize(0) };
    app.select(a);
    app.select(b.clone());
    // B's fetch resolves first...
    let first = app.finish_messages_load(Ok(vec![message_row("from bob", 5_000_000_000, false)]));
    assert!(first.is_none());
    // ...and A's stale fetch resolves last, overwriting it.
    let second = app.finish_messages_load(Ok(vec![message_row("from alice", 1_000_000_000, false)]));
    assert!(second.is_none());
    assert_eq!(app.selected_chat, Some(b));
    match app.selected_chat_messages.get() {
        SlotState::Ready(ms) => {
            assert_eq!(ms.len(), 1);
            assert_eq!(ms[0].text, "from alice");
        }
        _ => panic!("message list not ready"),
    }
}

/// A resolved message fetch stores the mapped messages for the
/// selection, senders resolved.
#[test]
fn finish_messages_load_maps_rows() {
    let mut app = AppState::new();
    app.select(Chat { name: "alice".to_string(), last_active: normalize(0) });
    let failure = app.finish_messages_load(Ok(vec![
        message_row("hi", 0, false),
        message_row("hello", 1_000_000_000, true),
    ]));
    assert!(failure.is_none());
    match app.selected_chat_messages.get() {
        SlotState::Ready(ms) => {
            assert_eq!(ms.len(), 2);
            assert_eq!(ms[0].sender, Sender::SomeoneElse("other".to_string()));
            assert_eq!(ms[1].sender, Sender::Me);
        }
        _ => panic!("message list not ready"),
    }
}

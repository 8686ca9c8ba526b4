use imessage_reader::model::{
    chat_from_row, chats_from_rows, message_from_row, messages_from_rows, resolve_sender, ChatRow,
    MessageRow, Sender,
};

/// A row the local user sent maps to sender "self" whatever its handle
/// column holds — present, absent, or empty.
#[test]
fn from_me_maps_to_self_regardless_of_handle() {
    assert_eq!(resolve_sender(true, &None), Sender::Me);
    assert_eq!(resolve_sender(true, &Some("alice@example.com".to_string())), Sender::Me);
    assert_eq!(resolve_sender(true, &Some(String::new())), Sender::Me);
}

/// A row from the other party carries the resolved handle, or the
/// placeholder when the store's join found none (or only an empty one).
#[test]
fn other_party_handle_or_placeholder() {
    assert_eq!(
        resolve_sender(false, &Some("alice@example.com".to_string())),
        Sender::SomeoneElse("alice@example.com".to_string())
    );
    assert_eq!(resolve_sender(false, &None), Sender::SomeoneElse("unknown".to_string()));
    assert_eq!(
        resolve_sender(false, &Some(String::new())),
        Sender::SomeoneElse("unknown".to_string())
    );
}

/// Mapping one message row keeps the body, normalizes the stamp and
/// resolves the sender.
#[test]
fn message_row_maps_to_entity() {
    let row = MessageRow {
        text: "hello there".to_string(),
        date_raw: 1_999_999_999,
        handle: Some("bob@example.com".to_string()),
        is_from_me: false,
    };
    let m = message_from_row(&row);
    assert_eq!(m.text, "hello there");
    assert_eq!(m.date.secs, 978_307_201);
    assert_eq!(m.sender, Sender::SomeoneElse("bob@example.com".to_string()));
}

/// Mapping a summary row keeps the identifier and normalizes the stamp.
#[test]
fn chat_row_maps_to_entity() {
    let row = ChatRow { name: "alice".to_string(), last_active_raw: 86_400_000_000_000 };
    let c = chat_from_row(&row);
    assert_eq!(c.name, "alice");
    assert_eq!(c.last_active.secs, 978_307_200 + 86_400);
}

/// Two conversations — "alice" with three messages spanning three days,
/// "bob" with one message yesterday. The summary rows arrive from the
/// store grouped per identifier on the most recent stamp and ordered by
/// it descending; the conversation list keeps that order: "alice" first
/// when her latest message is more recent than bob's.
#[test]
fn two_conversations_ordered_by_recency() {
    let day: i64 = 86_400_000_000_000;
    // Alice's three messages: three, two and one day(s) after the epoch.
    let alice_latest = 3 * day;
    // Bob's single message: "yesterday" relative to alice's latest.
    let bob_latest = 2 * day;
    let rows = vec![
        ChatRow { name: "alice".to_string(), last_active_raw: alice_latest },
        ChatRow { name: "bob".to_string(), last_active_raw: bob_latest },
    ];
    let chats = chats_from_rows(&rows);
    let names: Vec<&str> = chats.iter().map(|c| c.name.as_str()).collect();
    assert_eq!(names, vec!["alice", "bob"]);
    assert!(chats[0].last_active.secs >= chats[1].last_active.secs);
}

/// The reversed case: bob's message is the more recent one, so the
/// store's summary rows arrive with "bob" first and the list keeps it.
#[test]
fn two_conversations_ordered_by_recency_reversed() {
    let day: i64 = 86_400_000_000_000;
    let rows = vec![
        ChatRow { name: "bob".to_string(), last_active_raw: 4 * day },
        ChatRow { name: "alice".to_string(), last_active_raw: 3 * day },
    ];
    let chats = chats_from_rows(&rows);
    let names: Vec<&str> = chats.iter().map(|c| c.name.as_str()).collect();
    assert_eq!(names, vec!["bob", "alice"]);
    assert!(chats[0].last_active.secs >= chats[1].last_active.secs);
}

/// A whole message result set maps row by row in order, and every
/// sender comes out unambiguous.
#[test]
fn message_rows_map_in_order_with_wellformed_senders() {
    let rows = vec![
        MessageRow {
            text: "hi".to_string(),
            date_raw: 0,
            handle: Some("carol".to_string()),
            is_from_me: false,
        },
        MessageRow { text: "hey".to_string(), date_raw: 1_000_000_000, handle: None, is_from_me: true },
        MessageRow {
            text: "who is this".to_string(),
            date_raw: 2_000_000_000,
            handle: None,
            is_from_me: false,
        },
    ];
    let ms = messages_from_rows(&rows);
    assert_eq!(ms.len(), 3);
    assert_eq!(ms[0].sender, Sender::SomeoneElse("carol".to_string()));
    assert_eq!(ms[1].sender, Sender::Me);
    assert_eq!(ms[2].sender, Sender::SomeoneElse("unknown".to_string()));
    // Timeline order is kept and dates never decrease.
    assert!(ms[0].date.secs <= ms[1].date.secs && ms[1].date.secs <= ms[2].date.secs);
    assert_eq!(ms[0].text, "hi");
    assert_eq!(ms[1].text, "hey");
    assert_eq!(ms[2].text, "who is this");
}

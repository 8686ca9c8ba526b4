//! Domain entities and the transform from raw store rows to them.
//!
//! The store hands back plain rows: a conversation row carries the
//! identifier and the raw stamp of its most recent message, a message
//! row carries the body, the raw stamp, the counterpart handle as the
//! store resolved it (absent when the join found none), and the
//! sent-by-me flag. Mapping a row normalizes its stamp and resolves its
//! sender; the store delivers conversation rows sorted by recency
//! descending with one row per identifier, and message rows sorted by
//! stamp ascending.

use vstd::prelude::*;
use vstd::string::*;
use crate::timestamp::{Timestamp, normalize, normalize_spec, lemma_normalize_monotonic};

verus! {

/// Who sent a message: the local user, or the other party under the
/// handle identifier the store resolved for it.
#[derive(Clone, PartialEq, Eq, Debug)]
pub enum Sender {
    Me,
    SomeoneElse(String),
}

/// A conversation: an opaque identifier and the time of its most
/// recent message.
#[derive(Clone, PartialEq, Eq, Debug)]
pub struct Chat {
    pub name: String,
    pub last_active: Timestamp,
}

/// One message of a conversation.
#[derive(Clone, PartialEq, Eq, Debug)]
pub struct Message {
    pub text: String,
    pub sender: Sender,
    pub date: Timestamp,
}

/// A raw conversation-summary row as the store returns it: the
/// identifier and the raw stamp of the most recent message.
#[derive(Clone, PartialEq, Eq, Debug)]
pub struct ChatRow {
    pub name: String,
    pub last_active_raw: i64,
}

/// A raw message row as the store returns it.
#[derive(Clone, PartialEq, Eq, Debug)]
pub struct MessageRow {
    pub text: String,
    pub date_raw: i64,
    pub handle: Option<String>,
    pub is_from_me: bool,
}

/// The identifier shown when the store could not resolve a counterpart
/// handle for a message.
pub open spec fn placeholder_handle_spec() -> Seq<char> {
    "unknown"@
}

/// The counterpart identifier a message row resolves to: the handle the
/// store found, or the placeholder when the join found none (or only an
/// empty identifier).
pub open spec fn resolved_handle(handle: Option<String>) -> Seq<char> {
    match handle {
        Some(h) => if h@.len() > 0 {
            h@
        } else {
            placeholder_handle_spec()
        },
        None => placeholder_handle_spec(),
    }
}

/// How a row's sender flag and handle determine the sender: a row the
/// local user sent is `Me` whatever its handle says; any other row
/// carries the resolved counterpart identifier.
pub open spec fn sender_matches(s: Sender, is_from_me: bool, handle: Option<String>) -> bool {
    if is_from_me {
        s is Me
    } else {
        s matches Sender::SomeoneElse(id) && id@ == resolved_handle(handle)
    }
}

/// A sender is never ambiguous: either the local user, or a non-empty
/// counterpart identifier.
pub open spec fn sender_wellformed(s: Sender) -> bool {
    match s {
        Sender::Me => true,
        Sender::SomeoneElse(id) => id@.len() > 0,
    }
}

/// The placeholder identifier as an owned string.
fn placeholder_handle() -> (r: String)
    ensures
        r@ == placeholder_handle_spec(),
        r@.len() > 0,
{
    proof {
        reveal_strlit("unknown");
    }
    String::from_str("unknown")
}

/// Resolve a row's sender from its sent-by-me flag and the handle the
/// store's join produced.
pub fn resolve_sender(is_from_me: bool, handle: &Option<String>) -> (s: Sender)
    ensures
        sender_matches(s, is_from_me, *handle),
        sender_wellformed(s),
{
    if is_from_me {
        Sender::Me
    } else {
        match handle {
            Some(h) => {
                if h.as_str().is_empty() {
                    Sender::SomeoneElse(placeholder_handle())
                } else {
                    Sender::SomeoneElse(h.clone())
                }
            },
            None => Sender::SomeoneElse(placeholder_handle()),
        }
    }
}

/// The conversation a summary row denotes: same identifier, stamp
/// normalized.
pub open spec fn chat_matches_row(c: Chat, row: ChatRow) -> bool {
    c.name@ == row.name@ && c.last_active.secs == normalize_spec(row.last_active_raw as int)
}

/// The message a raw row denotes: same body, stamp normalized, sender
/// resolved from the flag and handle.
pub open spec fn message_matches_row(m: Message, row: MessageRow) -> bool {
    m.text@ == row.text@ && m.date.secs == normalize_spec(row.date_raw as int)
        && sender_matches(m.sender, row.is_from_me, row.handle)
}

/// A conversation list that denotes a summary result set: the same
/// length, each entity matching its row, every stamp one the normalizer
/// produced.
pub open spec fn chats_match_rows(cs: Seq<Chat>, rows: Seq<ChatRow>) -> bool {
    cs.len() == rows.len() && (forall|i: int|
        0 <= i < rows.len() ==> chat_matches_row(#[trigger] cs[i], rows[i])) && (forall|i: int|
        0 <= i < rows.len() ==> (#[trigger] cs[i].last_active).wf())
}

/// A message list that denotes a message result set: the same length,
/// each entity matching its row, every sender unambiguous, every stamp
/// one the normalizer produced.
pub open spec fn messages_match_rows(ms: Seq<Message>, rows: Seq<MessageRow>) -> bool {
    ms.len() == rows.len() && (forall|i: int|
        0 <= i < rows.len() ==> message_matches_row(#[trigger] ms[i], rows[i])) && (forall|i: int|
        0 <= i < rows.len() ==> sender_wellformed(#[trigger] ms[i].sender)) && (forall|i: int|
        0 <= i < rows.len() ==> (#[trigger] ms[i].date).wf())
}

/// Map one conversation-summary row to its entity.
pub fn chat_from_row(row: &ChatRow) -> (c: Chat)
    ensures
        chat_matches_row(c, *row),
        c.last_active.wf(),
{
    Chat { name: row.name.clone(), last_active: normalize(row.last_active_raw) }
}

/// Map one message row to its entity.
pub fn message_from_row(row: &MessageRow) -> (m: Message)
    ensures
        message_matches_row(m, *row),
        sender_wellformed(m.sender),
        m.date.wf(),
{
    Message {
        text: row.text.clone(),
        sender: resolve_sender(row.is_from_me, &row.handle),
        date: normalize(row.date_raw),
    }
}

/// Map a whole conversation-summary result set, row by row, in order.
pub fn chats_from_rows(rows: &Vec<ChatRow>) -> (cs: Vec<Chat>)
    ensures
        chats_match_rows(cs@, rows@),
{
    let mut cs: Vec<Chat> = Vec::new();
    let mut idx: usize = 0;
    while idx < rows.len()
        invariant
            idx <= rows@.len(),
            cs@.len() == idx,
            forall|i: int| 0 <= i < idx ==> chat_matches_row(#[trigger] cs@[i], rows@[i]),
            forall|i: int| 0 <= i < idx ==> (#[trigger] cs@[i].last_active).wf(),
        decreases rows@.len() - idx,
    {
        cs.push(chat_from_row(&rows[idx]));
        idx = idx + 1;
    }
    cs
}

/// Map a whole message result set, row by row, in order.
pub fn messages_from_rows(rows: &Vec<MessageRow>) -> (ms: Vec<Message>)
    ensures
        messages_match_rows(ms@, rows@),
{
    let mut ms: Vec<Message> = Vec::new();
    let mut idx: usize = 0;
    while idx < rows.len()
        invariant
            idx <= rows@.len(),
            ms@.len() == idx,
            forall|i: int| 0 <= i < idx ==> message_matches_row(#[trigger] ms@[i], rows@[i]),
            forall|i: int| 0 <= i < idx ==> sender_wellformed(#[trigger] ms@[i].sender),
            forall|i: int| 0 <= i < idx ==> (#[trigger] ms@[i].date).wf(),
        decreases rows@.len() - idx,
    {
        ms.push(message_from_row(&rows[idx]));
        idx = idx + 1;
    }
    ms
}

/// Conversations ordered by recency: `last_active` never increases
/// along the list.
pub open spec fn chats_by_recency_desc(cs: Seq<Chat>) -> bool {
    forall|i: int, j: int|
        0 <= i <= j < cs.len() ==> #[trigger] cs[i].last_active.secs >= #[trigger] cs[
            j
        ].last_active.secs
}

/// No conversation identifier appears twice.
pub open spec fn chat_names_distinct(cs: Seq<Chat>) -> bool {
    forall|i: int, j: int| 0 <= i < j < cs.len() ==> #[trigger] cs[i].name@ != #[trigger] cs[j].name@
}

/// Messages in timeline order: `date` never decreases along the list.
pub open spec fn messages_by_date_asc(ms: Seq<Message>) -> bool {
    forall|i: int, j: int|
        0 <= i <= j < ms.len() ==> #[trigger] ms[i].date.secs <= #[trigger] ms[j].date.secs
}

/// Law of the conversation list: rows that arrive sorted by raw
/// last-activity descending, one per identifier — the shape the store's
/// grouped and ordered summary query yields — map to conversations
/// sorted by `last_active` non-increasing with no duplicate identifier.
pub proof fn lemma_conversations_sorted(rows: Seq<ChatRow>, cs: Seq<Chat>)
    requires
        chats_match_rows(cs, rows),
        forall|i: int, j: int|
            0 <= i <= j < rows.len() ==> #[trigger] rows[i].last_active_raw >= #[trigger] rows[
                j
            ].last_active_raw,
        forall|i: int, j: int|
            0 <= i < j < rows.len() ==> #[trigger] rows[i].name@ != #[trigger] rows[j].name@,
    ensures
        chats_by_recency_desc(cs),
        chat_names_distinct(cs),
{
    assert forall|i: int, j: int|
        0 <= i <= j < cs.len() implies #[trigger] cs[i].last_active.secs >= #[trigger] cs[
        j
    ].last_active.secs by {
        lemma_normalize_monotonic(rows[j].last_active_raw as int, rows[i].last_active_raw as int);
    }
}

/// Law of the message timeline: rows that arrive sorted by raw stamp
/// ascending — the shape the store's ordered message query yields — map
/// to messages sorted by `date` non-decreasing.
pub proof fn lemma_messages_sorted(rows: Seq<MessageRow>, ms: Seq<Message>)
    requires
        messages_match_rows(ms, rows),
        forall|i: int, j: int|
            0 <= i <= j < rows.len() ==> #[trigger] rows[i].date_raw <= #[trigger] rows[j].date_raw,
    ensures
        messages_by_date_asc(ms),
{
    assert forall|i: int, j: int|
        0 <= i <= j < ms.len() implies #[trigger] ms[i].date.secs <= #[trigger] ms[
        j
    ].date.secs by {
        lemma_normalize_monotonic(rows[i].date_raw as int, rows[j].date_raw as int);
    }
}

} // verus!

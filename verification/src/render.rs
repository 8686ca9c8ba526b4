//! The view model computed on every refresh.
//!
//! Each redraw takes a non-blocking snapshot of the load slots and the
//! selection and computes what the two panels show: the left panel is a
//! placeholder or one row per conversation (the selected one marked),
//! the right panel is a prompt, a placeholder, or one bubble per
//! message — the local user's messages right-aligned in the accent
//! color, the other party's left-aligned in the neutral color, in the
//! loaded (chronological) order.

use vstd::prelude::*;
use crate::model::{Chat, Message, Sender};
use crate::slot::{LoadSlot, SlotState};
use crate::timestamp::utc_text_of;

verus! {

/// One clickable row of the conversation panel.
pub struct ChatEntry {
    /// The conversation identifier, shown as the row's title.
    pub name: String,
    /// The last-activity stamp, rendered as UTC calendar text.
    pub last_active_text: String,
    /// Whether this row is the current selection and gets the highlight
    /// fill.
    pub selected: bool,
}

/// What the left panel shows.
pub enum ChatPanel {
    /// Nothing was ever loaded: the "no chats found" placeholder.
    NoChats,
    /// A load is in flight: the loading placeholder.
    Loading,
    /// One row per conversation, in the loaded order.
    Rows(Vec<ChatEntry>),
}

/// Which edge of the panel a bubble hugs.
pub enum BubbleSide {
    Right,
    Left,
}

/// The fill of a bubble: the accent color marks the local user's
/// messages, the neutral color the other party's.
pub enum BubbleColor {
    Accent,
    Neutral,
}

/// One rendered message bubble.
pub struct Bubble {
    pub text: String,
    pub side: BubbleSide,
    pub color: BubbleColor,
}

/// What the right panel shows.
pub enum MessagePanel {
    /// No conversation is selected: the selection prompt.
    SelectPrompt,
    /// Selected, but no load was ever recorded: the "no messages found"
    /// placeholder.
    NoMessages,
    /// A load is in flight: the loading placeholder.
    Loading,
    /// One bubble per message, in the loaded order.
    Bubbles(Vec<Bubble>),
}

/// How a conversation appears as a panel row: same identifier, the
/// stamp rendered as calendar text, and the highlight exactly on the
/// selection's identifier.
pub open spec fn chat_entry_matches(e: ChatEntry, c: Chat, selected: Option<Chat>) -> bool {
    e.name@ == c.name@ && e.last_active_text@ == utc_text_of(c.last_active.secs as int)
        && e.selected == (selected matches Some(s) && s.name@ == c.name@)
}

/// How a message appears as a bubble: same body; right edge and accent
/// fill exactly for the local user's messages.
pub open spec fn bubble_matches(b: Bubble, m: Message) -> bool {
    b.text@ == m.text@ && (b.side is Right <==> m.sender is Me) && (b.color is Accent
        <==> m.sender is Me)
}

/// Compute the left panel from a snapshot of the conversation slot and
/// the selection.
pub fn chat_panel(slot: &LoadSlot<Vec<Chat>>, selected: &Option<Chat>) -> (p: ChatPanel)
    requires
        slot.state matches SlotState::Ready(cs) ==> forall|i: int|
            0 <= i < cs@.len() ==> (#[trigger] cs@[i].last_active).wf(),
    ensures
        slot.state is Empty ==> p is NoChats,
        slot.state is Fetching ==> p is Loading,
        slot.state matches SlotState::Ready(cs) ==> (p matches ChatPanel::Rows(entries)
            && entries@.len() == cs@.len() && (forall|i: int|
            0 <= i < cs@.len() ==> chat_entry_matches(#[trigger] entries@[i], cs@[i], *selected))),
{
    match slot.get() {
        SlotState::Empty => ChatPanel::NoChats,
        SlotState::Fetching => ChatPanel::Loading,
        SlotState::Ready(cs) => {
            let mut entries: Vec<ChatEntry> = Vec::new();
            let mut idx: usize = 0;
            while idx < cs.len()
                invariant
                    idx <= cs@.len(),
                    entries@.len() == idx,
                    forall|i: int|
                        0 <= i < cs@.len() ==> (#[trigger] cs@[i].last_active).wf(),
                    forall|i: int|
                        0 <= i < idx ==> chat_entry_matches(
                            #[trigger] entries@[i],
                            cs@[i],
                            *selected,
                        ),
                decreases cs@.len() - idx,
            {
                let chat = &cs[idx];
                let highlighted: bool = match selected {
                    Some(s) => s.name == chat.name,
                    None => false,
                };
                entries.push(
                    ChatEntry {
                        name: chat.name.clone(),
                        last_active_text: chat.last_active.utc_text(),
                        selected: highlighted,
                    },
                );
                idx = idx + 1;
            }
            ChatPanel::Rows(entries)
        },
    }
}

/// Compute one bubble per message, keeping the loaded order.
pub fn message_bubbles(ms: &Vec<Message>) -> (bs: Vec<Bubble>)
    ensures
        bs@.len() == ms@.len(),
        forall|i: int| 0 <= i < ms@.len() ==> bubble_matches(#[trigger] bs@[i], ms@[i]),
{
    let mut bs: Vec<Bubble> = Vec::new();
    let mut idx: usize = 0;
    while idx < ms.len()
        invariant
            idx <= ms@.len(),
            bs@.len() == idx,
            forall|i: int| 0 <= i < idx ==> bubble_matches(#[trigger] bs@[i], ms@[i]),
        decreases ms@.len() - idx,
    {
        let m = &ms[idx];
        let from_me: bool = match &m.sender {
            Sender::Me => true,
            Sender::SomeoneElse(_) => false,
        };
        bs.push(
            Bubble {
                text: m.text.clone(),
                side: if from_me {
                    BubbleSide::Right
                } else {
                    BubbleSide::Left
                },
                color: if from_me {
                    BubbleColor::Accent
                } else {
                    BubbleColor::Neutral
                },
            },
        );
        idx = idx + 1;
    }
    bs
}

/// Compute the right panel from the selection and a snapshot of the
/// message slot.
pub fn message_panel(selected: &Option<Chat>, slot: &LoadSlot<Vec<Message>>) -> (p: MessagePanel)
    ensures
        selected is None ==> p is SelectPrompt,
        selected is Some ==> (slot.state is Empty ==> p is NoMessages),
        selected is Some ==> (slot.state is Fetching ==> p is Loading),
        selected is Some ==> (slot.state matches SlotState::Ready(ms) ==> (p matches
            MessagePanel::Bubbles(bs) && bs@.len() == ms@.len() && (forall|i: int|
            0 <= i < ms@.len() ==> bubble_matches(#[trigger] bs@[i], ms@[i])))),
{
    match selected {
        None => MessagePanel::SelectPrompt,
        Some(_) => match slot.get() {
            SlotState::Empty => MessagePanel::NoMessages,
            SlotState::Fetching => MessagePanel::Loading,
            SlotState::Ready(ms) => MessagePanel::Bubbles(message_bubbles(ms)),
        },
    }
}

/// The red, green, blue and alpha of a bubble fill: the accent blue the
/// viewer marks its own messages with, or the neutral grey.
pub fn bubble_rgba(color: &BubbleColor) -> (rgba: (u8, u8, u8, u8))
    ensures
        color is Accent ==> rgba == (65u8, 136u8, 247u8, 255u8),
        color is Neutral ==> rgba == (59u8, 59u8, 61u8, 255u8),
{
    match color {
        BubbleColor::Accent => (65, 136, 247, 255),
        BubbleColor::Neutral => (59, 59, 61, 255),
    }
}

} // verus!

//! Application state and load orchestration.
//!
//! The state owns the two load slots — the conversation list and the
//! message list of the selected conversation — and the current
//! selection. Starting the application marks the conversation slot
//! `Fetching`; selecting a conversation records it and marks the
//! message slot `Fetching`. When a fetch resolves, its raw rows are
//! mapped to entities and stored in the slot; a failed fetch changes
//! nothing and is handed back for diagnostics, leaving the slot's
//! `Fetching` marker in place.

use vstd::prelude::*;
use crate::model::{Chat, ChatRow, Message, MessageRow, chats_match_rows, messages_match_rows,
    chats_from_rows, messages_from_rows};
use crate::slot::{LoadSlot, SlotState, step_start};

verus! {

/// A failed load, reduced to its diagnostic text.
#[derive(Clone, PartialEq, Eq, Debug)]
pub struct LoadError {
    pub message: String,
}

/// The whole mutable state of the viewer.
pub struct AppState {
    /// The conversation list, as last loaded.
    pub chats: LoadSlot<Vec<Chat>>,
    /// The conversation the user clicked, if any.
    pub selected_chat: Option<Chat>,
    /// The message list of the selected conversation, as last loaded.
    pub selected_chat_messages: LoadSlot<Vec<Message>>,
}

impl AppState {
    /// A fresh viewer: nothing loaded, nothing selected.
    pub fn new() -> (app: Self)
        ensures
            app.chats.state is Empty,
            app.selected_chat is None,
            app.selected_chat_messages.state is Empty,
    {
        AppState {
            chats: LoadSlot::new(),
            selected_chat: None,
            selected_chat_messages: LoadSlot::new(),
        }
    }

    /// Startup: mark the conversation list as loading. The caller
    /// schedules the summary query right after and feeds its outcome to
    /// `finish_chats_load`.
    pub fn initial_load(&mut self)
        ensures
            final(self).chats.state == step_start(old(self).chats.state),
            final(self).selected_chat == old(self).selected_chat,
            final(self).selected_chat_messages == old(self).selected_chat_messages,
    {
        self.chats.start();
    }

    /// Record the clicked conversation and mark its message list as
    /// loading. The caller schedules the message query for the
    /// conversation's identifier and feeds its outcome to
    /// `finish_messages_load`. An in-flight load for an earlier
    /// selection is not cancelled: whichever outcome is recorded last
    /// determines the slot.
    pub fn select(&mut self, chat: Chat)
        ensures
            final(self).selected_chat == Some(chat),
            final(self).selected_chat_messages.state == step_start(
                old(self).selected_chat_messages.state,
            ),
            final(self).chats == old(self).chats,
    {
        self.selected_chat = Some(chat);
        self.selected_chat_messages.start();
    }

    /// Record the outcome of a conversation-summary fetch: successful
    /// rows are mapped to conversations and stored as `Ready`; a
    /// failure changes nothing and is handed back for diagnostics.
    pub fn finish_chats_load(&mut self, outcome: Result<Vec<ChatRow>, LoadError>) -> (failure:
        Option<LoadError>)
        ensures
            outcome matches Ok(rows) ==> (final(self).chats.state matches SlotState::Ready(cs)
                && chats_match_rows(cs@, rows@) && failure is None),
            outcome matches Err(e) ==> final(self).chats == old(self).chats && failure == Some(e),
            final(self).selected_chat == old(self).selected_chat,
            final(self).selected_chat_messages == old(self).selected_chat_messages,
    {
        match outcome {
            Ok(rows) => {
                let cs = chats_from_rows(&rows);
                self.chats.finish::<LoadError>(Ok(cs))
            },
            Err(e) => self.chats.finish(Err(e)),
        }
    }

    /// Record the outcome of a message fetch for the selected
    /// conversation: successful rows are mapped to messages and stored
    /// as `Ready`; a failure changes nothing and is handed back for
    /// diagnostics.
    pub fn finish_messages_load(&mut self, outcome: Result<Vec<MessageRow>, LoadError>) -> (failure:
        Option<LoadError>)
        ensures
            outcome matches Ok(rows) ==> (final(self).selected_chat_messages.state matches
                SlotState::Ready(ms) && messages_match_rows(ms@, rows@) && failure is None),
            outcome matches Err(e) ==> final(self).selected_chat_messages == old(
                self,
            ).selected_chat_messages && failure == Some(e),
            final(self).selected_chat == old(self).selected_chat,
            final(self).chats == old(self).chats,
    {
        match outcome {
            Ok(rows) => {
                let ms = messages_from_rows(&rows);
                self.selected_chat_messages.finish::<LoadError>(Ok(ms))
            },
            Err(e) => self.selected_chat_messages.finish(Err(e)),
        }
    }
}

} // verus!

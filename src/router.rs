//! Interpreting the plugin's response as exactly one outbound platform action
//! for each kind of originating event.
use vstd::prelude::*;

use crate::inline::{results_from_items, results_of, InlineItem, InlineResult};
use crate::model::{PluginResponse, SwitchPm};

verus! {

/// What is done after a full chat message was dispatched.
#[derive(Clone, Debug, PartialEq, Eq)]
pub enum MessageAction {
    /// Send `text` to the chat `chat_id`.
    SendMessage { chat_id: i64, text: String },
    /// Nothing visible.
    Nothing,
}

/// Routes the response to a full chat message: a text response is sent to
/// the originating chat; anything else has no visible effect.
pub fn route_message(resp: PluginResponse, chat_id: i64) -> (r: MessageAction)
    ensures
        r == match resp {
            PluginResponse::Text(text) => MessageAction::SendMessage { chat_id, text },
            _ => MessageAction::Nothing,
        },
{
    match resp {
        PluginResponse::Text(text) => MessageAction::SendMessage { chat_id, text },
        _ => MessageAction::Nothing,
    }
}

/// The answer to an inline query: always sent, with an empty result list
/// when the plugin had nothing to offer.
#[derive(Clone, Debug, PartialEq, Eq)]
pub struct InlineAnswer {
    pub results: Vec<InlineResult>,
    pub button: Option<SwitchPm>,
    pub cache_time: Option<u32>,
}

/// Routes the response to an inline query. `decoded` is the decoding of the
/// response's `results_json`, `None` where it is not a valid item list.
pub fn route_inline(resp: PluginResponse, decoded: Option<Vec<InlineItem>>) -> (r: InlineAnswer)
    ensures
        match resp {
            PluginResponse::Inline(i) => {
                &&& r.results@ == results_of(
                    match decoded {
                        Some(v) => Some(v@),
                        None => None,
                    },
                )
                &&& r.button == i.switch_pm
                &&& r.cache_time == i.cache_time
            },
            _ => r.results@.len() == 0 && r.button is None && r.cache_time is None,
        },
        decoded is None ==> r.results@.len() == 0,
{
    match resp {
        PluginResponse::Inline(i) => InlineAnswer {
            results: results_from_items(decoded),
            button: i.switch_pm,
            cache_time: i.cache_time,
        },
        _ => InlineAnswer { results: Vec::new(), button: None, cache_time: None },
    }
}

/// A regular chat message: its chat and its id.
#[derive(Clone, Copy, Debug, PartialEq, Eq)]
pub struct MessageRef {
    pub chat_id: i64,
    pub message_id: i32,
}

/// Where a callback query came from: its id, the inline message it was
/// pressed under (if any), and the regular message it was pressed under (if
/// any).
#[derive(Clone, Debug, PartialEq, Eq)]
pub struct CallbackOrigin {
    pub query_id: String,
    pub inline_message_id: Option<String>,
    pub message: Option<MessageRef>,
}

/// What is done after a callback query was dispatched.
#[derive(Clone, Debug, PartialEq, Eq)]
pub enum CallbackAction {
    /// Edit the inline message to `text`, then acknowledge the query.
    EditInlineMessage { query_id: String, inline_message_id: String, text: String },
    /// Edit the regular message to `text`, then acknowledge the query.
    EditChatMessage { query_id: String, target: MessageRef, text: String },
    /// Acknowledge the query with a pop-up alert carrying `text`.
    ShowAlert { query_id: String, text: String },
    /// Acknowledge the query with nothing else.
    Acknowledge { query_id: String },
}

/// The action that answers a callback query.
pub open spec fn callback_action(resp: PluginResponse, origin: CallbackOrigin) -> CallbackAction {
    let query_id = origin.query_id;
    match resp {
        PluginResponse::EditInline(text) => match (origin.inline_message_id, origin.message) {
            (Some(inline_message_id), _) => CallbackAction::EditInlineMessage {
                query_id,
                inline_message_id,
                text,
            },
            (None, Some(target)) => CallbackAction::EditChatMessage { query_id, target, text },
            (None, None) => CallbackAction::Acknowledge { query_id },
        },
        PluginResponse::Text(text) => CallbackAction::ShowAlert { query_id, text },
        _ => CallbackAction::Acknowledge { query_id },
    }
}

/// Routes the response to a callback query. An edit goes to the inline
/// message where there is one, else to the regular message; a text becomes
/// a pop-up alert; anything else is a bare acknowledgement.
pub fn route_callback(resp: PluginResponse, origin: CallbackOrigin) -> (r: CallbackAction)
    ensures
        r == callback_action(resp, origin),
{
    let query_id = origin.query_id;
    match resp {
        PluginResponse::EditInline(text) => match (origin.inline_message_id, origin.message) {
            (Some(inline_message_id), _) => CallbackAction::EditInlineMessage {
                query_id,
                inline_message_id,
                text,
            },
            (None, Some(target)) => CallbackAction::EditChatMessage { query_id, target, text },
            (None, None) => CallbackAction::Acknowledge { query_id },
        },
        PluginResponse::Text(text) => CallbackAction::ShowAlert { query_id, text },
        _ => CallbackAction::Acknowledge { query_id },
    }
}

/// What follows a pop-up alert: nothing when the platform accepted it; when it
/// rejected it, the same text as a plain message to the originating
/// conversation: the chat of the message the button was pressed under, or,
/// where there is none, the dispatch's context `context_id` (for a callback,
/// the sender's private chat).
pub open spec fn fallback_of(
    accepted: bool,
    text: String,
    message: Option<MessageRef>,
    context_id: i64,
) -> MessageAction {
    if accepted {
        MessageAction::Nothing
    } else {
        MessageAction::SendMessage {
            chat_id: match message {
                Some(m) => m.chat_id,
                None => context_id,
            },
            text,
        }
    }
}

/// Decides what follows a pop-up alert.
pub fn alert_fallback(
    accepted: bool,
    text: String,
    message: Option<MessageRef>,
    context_id: i64,
) -> (r: MessageAction)
    ensures
        r == fallback_of(accepted, text, message, context_id),
{
    if accepted {
        MessageAction::Nothing
    } else {
        let chat_id = match message {
            Some(m) => m.chat_id,
            None => context_id,
        };
        MessageAction::SendMessage { chat_id, text }
    }
}

/// A callback query gets one kind of outbound action: a response other than
/// a text never leads to an alert, and after an alert a plain message follows
/// exactly when the platform rejected the alert, so never both.
pub proof fn lemma_one_callback_action(
    resp: PluginResponse,
    origin: CallbackOrigin,
    accepted: bool,
    text: String,
    context_id: i64,
)
    ensures
        callback_action(resp, origin) is ShowAlert <==> resp is Text,
        accepted <==> fallback_of(accepted, text, origin.message, context_id)
            == MessageAction::Nothing,
{
}

/// What is done after a chosen inline result was dispatched.
#[derive(Clone, Debug, PartialEq, Eq)]
pub enum ChosenAction {
    /// Edit the inline message to `text` and remove its keyboard.
    EditInlineMessage { inline_message_id: String, text: String },
    /// Nothing visible.
    Nothing,
}

/// Routes the response to a chosen inline result: an edit goes to the sent
/// inline message where it has an id; anything else has no visible effect.
pub fn route_chosen(resp: PluginResponse, inline_message_id: Option<String>) -> (r: ChosenAction)
    ensures
        r == match (resp, inline_message_id) {
            (PluginResponse::EditInline(text), Some(inline_message_id)) => ChosenAction::EditInlineMessage {
                inline_message_id,
                text,
            },
            _ => ChosenAction::Nothing,
        },
{
    match (resp, inline_message_id) {
        (PluginResponse::EditInline(text), Some(inline_message_id)) => ChosenAction::EditInlineMessage {
            inline_message_id,
            text,
        },
        _ => ChosenAction::Nothing,
    }
}

} // verus!

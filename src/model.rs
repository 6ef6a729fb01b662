//! The values exchanged with the plugin across the sandbox boundary.
use vstd::prelude::*;

verus! {

/// Who sent an event.
#[derive(Clone, Debug, PartialEq, Eq)]
pub struct TelegramUser {
    pub id: i64,
    pub username: Option<String>,
    pub is_bot: bool,
    pub language_code: Option<String>,
}

/// Where an event happened.
#[derive(Clone, Debug, PartialEq, Eq)]
pub struct ChatContext {
    pub id: i64,
    pub chat_type: String,
    pub title: Option<String>,
}

/// What happened: exactly one of these per dispatch.
#[derive(Clone, Debug, PartialEq, Eq)]
pub enum TriggerEvent {
    /// A command name and its whitespace-separated arguments.
    Command(String, Vec<String>),
    Message(String),
    InlineQuery(String),
    CallbackQuery(String),
    ChosenInlineResult(String),
}

/// A button that sends the user to a private chat with a start parameter.
#[derive(Clone, Debug, PartialEq, Eq)]
pub struct SwitchPm {
    pub text: String,
    pub start_parameter: String,
}

/// The plugin's answer to an inline query.
#[derive(Clone, Debug, PartialEq, Eq)]
pub struct InlineResponse {
    /// A JSON array of result objects.
    pub results_json: String,
    pub switch_pm: Option<SwitchPm>,
    pub cache_time: Option<u32>,
}

/// What the plugin asks the host to do.
#[derive(Clone, Debug, PartialEq, Eq)]
pub enum PluginResponse {
    Text(String),
    Inline(InlineResponse),
    EditInline(String),
    /// Nothing to do.
    Noop,
}

/// A copy of an optional string.
pub fn clone_opt_string(o: &Option<String>) -> (r: Option<String>)
    ensures
        r == *o,
{
    match o {
        Some(s) => Some(s.clone()),
        None => None,
    }
}

} // verus!

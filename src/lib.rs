//! Host-side logic of a sandboxed chat-bot plugin runtime: turning inbound
//! chat events into the plugin's tagged trigger events, turning the plugin's
//! tagged responses into exactly one outbound platform action, and the
//! storage capability that the plugin reaches through the host.
pub mod inline;
pub mod model;
pub mod normalize;
pub mod router;
pub mod storage;

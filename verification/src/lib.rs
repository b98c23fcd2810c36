//! Core of a code-review assistant: it turns a change set — the local diff
//! between two committed trees, or the file list of a remote pull request —
//! into a fixed four-message conversation for a chat-completion endpoint,
//! and consumes the streamed reply in arrival order.

pub mod local_diff;
pub mod pr;
pub mod prompt;
pub mod stream;
pub mod text;
pub mod utils;

//! Verified core of a chat-bot trading front end: button keyboards, the
//! registry of the last menu message per user, the callback router and the
//! per-chat prompt dialogue.

pub mod labels;
pub mod text;
pub mod keyboard;
pub mod buttons;
pub mod registry;
pub mod dialogue;
pub mod router;
pub mod request;
pub mod info;

//! A relay between a chat and the machines that run code for it. A message
//! that begins with a known command, from a sender on the allow-list, has
//! its payload executed: by a remote service, by the shell of this machine,
//! or by a build of a project kept on disk. What comes of it goes back to
//! the chat.
//!
//! The library decides and formats; it does no input or output. A caller
//! hands [`relay::Relay::dispatch`] each message, does the work that comes
//! back, and hands the outcome to [`remote::settle`] or [`local::settle`]
//! for the reply. Builds on the one scaffold take turns through
//! [`scaffold::Scaffold`].

pub mod format;
pub mod gate;
pub mod json;
pub mod local;
pub mod message;
pub mod outcome;
pub mod relay;
pub mod remote;
pub mod scaffold;
pub mod text;

//! A sandboxed file agent: a language model inspects and changes the files
//! under one root directory by asking for tools in JSON, never by shell
//! commands.
//!
//! The library holds the rules and no input or output: it extracts the
//! JSON candidate from a reply ([`extract`]), reads it as a tool call
//! ([`tool`], over [`json`]), confines its path to the root ([`sandbox`]),
//! plans the filesystem request and words the outcome ([`dispatch`],
//! [`outcome`]), and keeps the conversation and decides when the run is
//! over ([`agent`]). [`chat`] holds the wire format of the model backend.

pub mod agent;
pub mod chat;
pub mod dispatch;
pub mod extract;
pub mod json;
pub mod outcome;
pub mod sandbox;
pub mod text;
pub mod tool;

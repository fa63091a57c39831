//! Core of a command-line client for a remote chat-completion service:
//! configuration and credential resolution, completion-request construction,
//! multi-turn conversation state, and extraction of fenced code blocks from
//! markdown answers.

pub mod config;
pub mod decode;
pub mod encode;
pub mod errors;
pub mod extract;
pub mod messages;
pub mod prompts;
pub mod session;
pub mod text;

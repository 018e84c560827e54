//! A message-driven remote-command agent core.
//!
//! The library covers the message-to-execution pipeline of a chat-driven
//! command agent: extracting a structured command list from unstructured
//! model text, fail-stop sequential execution of that list with per-command
//! outcome recording, the authorization policy gating which chats may
//! trigger execution, and the formatting of execution reports.
//!
//! All I/O (the chat transport, the model endpoint, process spawning) lives
//! outside this crate; the library states and proves what is decided and
//! computed between those edges.

pub mod config;
pub mod executor;
pub mod extract;
pub mod handler;
pub mod report;
pub mod text;

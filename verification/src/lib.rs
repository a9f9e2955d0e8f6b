//! Coordination of chat generations against a local model server: the shared
//! generation state, the stages one generation passes through, the session
//! directory and message log kept in SQLite, and the decoding of the model
//! server's streamed replies.

pub mod commands;
pub mod db;
pub mod generation;
pub mod json;
pub mod ollama_api;
pub mod session;
pub mod sql;
pub mod statements;
pub mod text;
pub mod window;

//! A single-user command responder for a chat gateway: who may command, which
//! handler a message reaches, and which effects that handler asks for.

pub mod actions;
pub mod command;
pub mod config;
pub mod emoji;
pub mod handler;
pub mod laws;
pub mod model;
pub mod run;
pub mod text;
pub mod words;

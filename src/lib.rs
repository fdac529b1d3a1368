//! Selection capture and translation transactions for a clipboard-driven
//! Japanese/English translator.
//!
//! The library holds the decisions; the host application performs the
//! clipboard reads and writes, the synthetic keystrokes and the network calls,
//! and feeds their results back.

pub mod language;
pub mod text;
pub mod clipboard_manager;
pub mod error;
pub mod capture;
pub mod config;
pub mod translation;
pub mod transaction;
pub mod keystroke;

//! Sit/stand reminder backend: the preferences record and its stored text,
//! the notification log lines, and the two-step sequences that a shell runs
//! around them.

pub mod config;
pub mod error;
pub mod notification;
pub mod preferences;
pub mod text;

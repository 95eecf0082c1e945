//! Reads, sets and toggles the system output volume through each platform's
//! command-line audio tool.
//!
//! The library decides which command to run at each stage of an operation
//! and what the tool's exit status and output come to; the caller runs the
//! commands. `level` holds a requested level to the range 0 to 100, `text`
//! reads the tools' answers, `command` writes their command lines,
//! `controller` steps the three operations, and `laws` states what holds of
//! them together.

pub mod command;
pub mod controller;
pub mod laws;
pub mod level;
pub mod text;

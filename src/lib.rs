//! Permanently set environment variables.
//!
//! On POSIX systems a variable is made permanent by appending an `export`
//! line to the user's shell profile; on Windows by handing the value to the
//! `setx` command. This library holds the decisions and the text: which
//! profile file receives the line, what the line says, what value `setx`
//! is given, and what a failure reports. Opening files, reading the process
//! environment and running `setx` are left to the caller.
pub mod error;
pub mod lines;
pub mod native;
pub mod profile;

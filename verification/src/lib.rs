//! A harness around the watchdog of a Redis client that gives up connections on which
//! commands go unanswered.
//!
//! Four scenarios set the time limits of the client in different ways and watch what
//! callers see while a server is slow. The crate holds what the scenarios decide and
//! say; performing their steps is left to the program around it.

pub mod course;
pub mod handlers;
pub mod json;
pub mod netem;
pub mod report;
pub mod run;
pub mod settings;
pub mod text;
pub mod wording;

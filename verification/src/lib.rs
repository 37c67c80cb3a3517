//! The greeting command of a small desktop application.
//!
//! The application's front end sends a string and gets a greeting back. This
//! crate holds that command, [`temp`], with the statement of what it returns
//! and the proofs that go with it. Window, plugins and event loop belong to
//! the application shell and are wired up by the program that embeds this
//! crate.

pub mod command;

pub use command::greeting;
pub use command::lemma_greeting_deterministic;
pub use command::lemma_greeting_literals;
pub use command::temp;

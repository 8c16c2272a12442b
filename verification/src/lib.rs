//! A verified model of the input state of a line-oriented command console:
//! an editable text buffer, a history of confirmed entries, and a cursor for
//! browsing that history the way a shell's up/down-arrow recall works.
//!
//! The library renders nothing and interprets no commands. The host feeds
//! characters and navigation requests in, reads the displayed text and the
//! history back, and asks `confirm` to parse the displayed text into its own
//! command type. A zero-sized stand-in with the same interface, for builds
//! that must ship without the console, lives in [`disabled`].

mod console;
mod dedup;
pub mod disabled;
pub mod laws;
mod model;
mod strings;

pub use console::Console;
pub use model::ConsoleView;

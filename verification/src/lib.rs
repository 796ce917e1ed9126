//! A transparent process wrapper: the logic of a session that relays an
//! operator's input to a child process and the child's output and error
//! streams back, while teeing a prefixed copy of every line to a single
//! transcript sink.
//!
//! The surrounding binary does the actual spawning and byte shuffling; this
//! crate decides everything: which sink a configuration selects, how a
//! transcript line is rendered, and, for each readiness event, what the
//! multiplexer does and when the session ends.

pub mod channel;
pub mod mux;
pub mod sink;

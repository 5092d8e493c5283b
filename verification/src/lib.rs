//! A session multiplexer for pseudoterminal-backed processes.
//!
//! The library is the engine behind a set of caller-facing operations —
//! create, write, resize, destroy — over a table of terminal sessions.
//! Each session wraps one pseudoterminal pair and its child process and is
//! served by two loops: a writer loop that serializes input to the
//! terminal, and a reader loop that forwards decoded output to a sink and
//! applies geometry changes. The table, the message protocol of the two
//! loops, and the shutdown handshake that unblocks a pending terminal read
//! are modeled and verified here; the operating-system resources (the
//! pseudoterminal, the child process, the loop threads and their channels)
//! are driven by the embedding program, which consults these functions for
//! every decision.

pub mod errors;
pub mod reader;
pub mod session;
pub mod table;
pub mod writer;

//! Conversational sessions for an agent that answers through a pluggable
//! prediction backend.
//!
//! A session holds a persona, a rolling scratch buffer and the size of its
//! transcript window; its transcript is an append-only log of entries. An
//! agent owns one backend and one memory engine, binds sessions to itself,
//! and runs turns on them: the transcript window and the new message go to
//! the backend, and the message and the reply are stored once the reply is
//! in.
//!
//! Everything here is verified. The contracts speak of the store as four
//! tables of rows, in `database::model`; what holds across operations is
//! proved in `database::guarantees`.

pub mod backend;
pub mod database;
pub mod sdk;

//! A verified model of a pooled IMAP session manager: a flag vocabulary with a
//! lossless wire mapping, a mailbox-selection state machine, command rendering,
//! fetch-result decoding, and the idle/in-use accounting of a bounded session
//! pool with its recycle policy.
//!
//! Network transport, TLS, and the asynchronous protocol exchange are outside
//! collaborators: callers drive them and feed the observed outcomes back into
//! the state machine and pool model defined here.

pub mod command;
pub mod config;
pub mod decimal;
pub mod flag;
pub mod message;
pub mod pool;
pub mod send;
pub mod session;

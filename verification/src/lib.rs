//! A Hotline protocol implementation: wire formats of handshakes, transactions
//! and their parameters, the typed transactions built on them, and the state
//! that a server keeps about users, chat rooms and news.

pub mod protocol;
pub mod server;
pub mod apple;

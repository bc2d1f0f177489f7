//! Protocol layer for a pair of message-broker command-line tools: header
//! encoding, publisher confirms, the session lifecycle, the delivery loop's
//! decisions and orderly shutdown.

pub mod text;
pub mod table;
pub mod headers;
pub mod cli;
pub mod confirm;
pub mod session;
pub mod publisher;
pub mod consumer;
pub mod shutdown;
pub mod logline;

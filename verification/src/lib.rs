//! A minimal line-oriented message queue: a parser for the wire protocol and
//! the shared, ordered store of messages that the parsed commands act on.

pub mod cli;
pub mod dispatch;
pub mod error;
pub mod protocol;
pub mod queue;
pub mod store;
pub mod text;

pub use dispatch::{process_command, receive};
pub use error::Error;
pub use protocol::{parse, Command};
pub use store::DataStore;

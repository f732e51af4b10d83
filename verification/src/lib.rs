//! A client library for the Soulseek peer-to-peer protocol: the wire format of
//! its messages, how messages are framed on a connection, and the decisions
//! the client takes on each message it receives.
pub mod buffer;
pub mod command_handlers;
pub mod digest;
pub mod events;
pub mod message;
pub mod peer;
pub mod protocol;
pub mod results;
pub mod server;

pub use results::SearchResults;

//! Framing of messages on a connection.
pub mod input_message;
pub mod message;
pub mod packet;
pub mod slsk_buffer;

//! A POP3 client core over a caller-driven byte stream.
//!
//! The library never touches the network. A [`session::Session`] is a state
//! machine: each mailbox operation returns an [`session::Action`] telling the
//! caller what to write and when to read, and the caller feeds back each line
//! (or a timeout or end of stream) as an [`session::Event`].
mod bytes;

pub mod command;
pub mod laws;
pub mod line;
pub mod response;
pub mod session;

//! Discovery-and-relay protocol of a serverless LAN chat.
//!
//! The first process on a network elects itself relay server when no
//! discovery beacon arrives in time; every later process finds it through the
//! beacon, connects, and exchanges newline-framed `AUTHOR|CONTENT` messages.
//!
//! This crate holds the protocol's rules as verified, sequential state
//! machines: what a text decodes to, what a reader does with a read, what a
//! distribute cycle sends and to whom. Sockets, threads and the terminal
//! belong to the program around it, which reports what happened and carries
//! out what the rules answer.
//!
//! - [`message`]: the message, its wire format, and the laws of the format.
//! - [`queue`]: the queue behind inbound queue and inbox.
//! - [`discovery`]: ports and periods, role election, the beacon's rule, and
//!   the choice of the local address.
//! - [`server`]: the relay server's registry, readers and distribute cycle.
//! - [`client`]: the client session.
//! - [`application`]: the state behind the chat window.
//! - [`text`]: bytes, text and numbers in text.
//! - [`utility`]: state shared between threads.

pub mod application;
pub mod client;
pub mod discovery;
pub mod message;
pub mod queue;
pub mod server;
pub mod text;
pub mod utility;

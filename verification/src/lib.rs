//! Network play for a two-player board game over an unframed byte stream.
//!
//! Two processes play over a connection that delivers bytes in arbitrary
//! chunks. Each message is one JSON document; nothing but the nesting of
//! its braces says where it ends.
//!
//! - [`finder`] finds the end of a document in a stream of bytes.
//! - [`poller`] cuts a stream into documents and tags the first one as the
//!   handshake.
//! - [`wire`] holds the messages.
//! - [`board`] converts between the board of the game state and the board
//!   of the messages.
//! - [`session`] is the game state of one connection: the moves made on
//!   it, and the one move that may wait to be sent.
//! - [`game`] is one process: its role on the network, and what it does
//!   with the messages of its peer.
//!
//! The rules of the game are not part of this crate: the game state asks
//! a [`session::RulesEngine`]. Sockets and the window are left to the
//! program around it.

pub mod board;
pub mod finder;
pub mod game;
pub mod poller;
pub mod session;
pub mod wire;

//! Client-side core of a sequencer feed reader.
//!
//! The crate holds the two parts of the client that decide anything:
//! the decoder that turns one broadcast message into the destination,
//! value and call data of the transaction it carries, and the controller
//! that keeps a pool of feed connections alive. Sockets, timers and
//! tasks are left to the program that embeds the crate; it reports what
//! happened and carries out what the controller answers.

pub mod errors;
pub mod pool_model;
pub mod feed_clients;
pub mod types;
pub mod codec;
pub mod decoder;
pub mod feed_client;

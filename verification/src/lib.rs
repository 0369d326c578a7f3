//! A sans-I/O core for a Network Block Device server.
//!
//! The crate holds the wire codec, the driver registry, the catalogue of
//! exported images and the per-connection state machine. It performs no I/O:
//! a host feeds it the bytes it read and carries out the actions it returns.

pub mod proto;
pub mod endian;
pub mod wire;
pub mod error;
mod buf;
mod text;
pub mod driver;
pub mod server;

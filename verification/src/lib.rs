//! A sans-I/O core for multiplexing light channels over one framed connection.
//!
//! The library holds the channel tables and decides what each frame does to
//! them. It never touches a socket: a driver reads frames from the transport,
//! hands them in as plain values, and performs the frames queued for sending.
//!
//! - [`light_id`], [`node_id`], [`light_connection`]: the values that the tables hold.
//! - [`frame`]: what passes between the library and the transport.
//! - [`connection`]: the tables, and opening, closing, sending and reading.
//! - [`dispatch`]: what one frame from the peer does to the tables.
//! - [`handshake`]: the exchange that opens a connection.
//! - [`command`]: requests that run on a channel of their own.
//! - [`laws`]: what holds across all of these.

pub mod command;
pub mod connection;
pub mod correlation;
pub mod dispatch;
pub mod error;
pub mod frame;
pub mod handshake;
pub mod laws;
pub mod light_connection;
pub mod light_id;
pub mod node_id;
pub mod ordered;
pub mod seed;

pub use connection::Connection;
pub use light_connection::{LightConnection, ServerLightConnection};
pub use light_id::LightId;

//! A client library for a WebSocket gateway protocol: frame decoding, the
//! heartbeat scheduler, the connection state machine and the command layer.

pub mod client;
pub mod codec;
pub mod events;
pub mod command;
pub mod heartbeat;
pub mod jsonval;
pub mod manager;
pub mod models;
pub mod opcode;

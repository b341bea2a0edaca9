//! The protocol core of a bidirectional streaming RPC layer.
//!
//! Everything here is free of I/O: a call is a small state machine that is
//! told what the transport did and answers with what to do next. Whoever owns
//! the transport opens substreams, writes and reads; this crate decides what
//! is written, what a read value means, and when a call is over.

pub mod client;
pub mod message;
pub mod pattern;
pub mod server;
pub mod transport;

pub use client::{RpcClient, UpdateSink};
pub use message::{InteractionPattern, Msg, Service};
pub use server::{race2, RpcChannel, RpcServerError, UpdateStep, UpdateStream};
pub use transport::ConnectionErrors;

//! An HTTP client whose transfers are carried out by a native,
//! callback-driven transfer engine.
//!
//! The library holds the rules of the client: how a request and a client's
//! defaults become engine settings, how the engine's callbacks fill the
//! buffers a caller reads from, how a response future moves through its
//! states, and how the agent keeps track of every transfer it was given.
//!
//! Nothing here blocks, sleeps or touches a socket. The engine's callbacks,
//! the caller's polls and the rounds of the agent's worker are all plain
//! calls on plain values; whoever owns the threads and the engine makes
//! them.

pub mod agent;
pub mod client;
pub mod config;
pub mod easy;
pub mod engine;
pub mod error;
pub mod handler;
pub mod middleware;
pub mod request;
pub mod response;
pub mod settings;
pub mod task;
pub mod text;

pub use crate::client::Client;
pub use crate::client::ClientBuilder;
pub use crate::client::ResponseFuture;

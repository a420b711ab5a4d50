//! Client side of the store-and-forward provider protocol of a mix network.
//!
//! A client cannot receive packets directly, so it registers once with a
//! provider, is issued an auth token, and from then on pulls the messages the
//! provider has buffered for it.
//!
//! - [`identity`]: addresses and tokens;
//! - [`wire`], [`codec`], [`requests`], [`responses`]: the wire format;
//! - [`transport`]: one exchange over one connection, as a state machine;
//! - [`provider`], [`error`]: the client and its errors;
//! - [`cli`], [`operators`]: what the command line of the node binaries
//!   comes to once it is parsed.
//!
//! Nothing here does I/O: the exchange with a provider is handed in by the
//! caller, or carried out by the caller step by step.

pub mod cli;
pub mod codec;
pub mod error;
pub mod identity;
pub mod operators;
pub mod provider;
pub mod requests;
pub mod responses;
pub mod transport;
pub mod wire;

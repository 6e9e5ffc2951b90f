//! Error taxonomy of a client that talks to a Substrate node over RPC: named failure
//! kinds, context wrappers that keep the underlying cause, navigation along the chain
//! of causes, and a classifier that tells connection failures from the others.
pub mod convert;
pub mod error;
mod outside;
pub mod render;
pub mod text;

pub use error::{Health, RpcErrorKind, RpcFailure, SubstrateError};

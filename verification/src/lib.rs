//! ECDSA on the secp256k1 curve: the value types, the rules that decide what
//! is handed to the curve arithmetic provider, and the rules that decide what
//! each of the provider's answers means.
//!
//! The provider itself (field and group arithmetic, signature encodings) is
//! not part of this crate. Every operation is split in two: a function that
//! builds the request to make, and a function that turns the provider's
//! reply into a typed result. Whoever links a provider carries the one to it
//! and brings the other back.

mod bytes;
pub mod constants;
pub mod engine;
pub mod entropy;
pub mod error;
pub mod guard;
pub mod key;
pub mod message;
pub mod provider;
pub mod signature;

pub use crate::engine::Secp256k1;
pub use crate::error::Error;
pub use crate::guard::{init, InitGuard};
pub use crate::message::Message;
pub use crate::signature::{RecoveryId, Signature};

//! Byte sizes of the values that cross the boundary to the provider.

use vstd::prelude::*;

verus! {

/// Length of a message digest.
pub const MESSAGE_SIZE: usize = 32;

/// Length of a secret key.
pub const SECRET_KEY_SIZE: usize = 32;

/// Length of a public key in compressed form.
pub const COMPRESSED_PUBLIC_KEY_SIZE: usize = 33;

/// Length of a public key in uncompressed form.
pub const UNCOMPRESSED_PUBLIC_KEY_SIZE: usize = 65;

/// Longest signature in the variable-length encoding.
pub const MAX_SIGNATURE_SIZE: usize = 72;

/// Length of a signature in the compact encoding.
pub const MAX_COMPACT_SIGNATURE_SIZE: usize = 64;

/// Number of random bytes that seed the nonce source of an engine.
pub const SEED_SIZE: usize = 2048;

} // verus!

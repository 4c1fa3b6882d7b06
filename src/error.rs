//! The errors of the node layer.

use vstd::prelude::*;

verus! {

/// Why an operation of the node layer failed.
#[derive(Debug, Clone, Copy, PartialEq, Eq, Structural)]
pub enum FsError {
    /// The header's key chain cannot yield a key.
    KeyDerivation,
    /// The cipher refused to encrypt the header.
    Encryption,
    /// The envelope carries another kind of node than the one asked for.
    TypeMismatch,
    /// The header ciphertext does not authenticate under the key.
    AuthenticationFailure,
    /// The decrypted header is not a valid header encoding.
    MalformedHeader,
    /// The bytes are not a valid envelope encoding.
    MalformedEnvelope,
}

impl FsError {
    /// A short description of the error.
    pub fn describe(&self) -> (r: &'static str) {
        match self {
            FsError::KeyDerivation => "key derivation failed",
            FsError::Encryption => "encryption failed",
            FsError::TypeMismatch => "node type mismatch",
            FsError::AuthenticationFailure => "authentication failed",
            FsError::MalformedHeader => "malformed header",
            FsError::MalformedEnvelope => "malformed envelope",
        }
    }
}

} // verus!

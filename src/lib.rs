//! Encrypted file nodes of a private file system: a node's header, which
//! holds its name accumulator and key chain, travels encrypted under a key
//! derived from that chain, while version, metadata and content travel in a
//! tagged envelope beside it.

pub mod codec;
pub mod crypto;
pub mod envelope;
pub mod error;
pub mod file;
pub mod header;
pub mod rng;

pub use envelope::{open_envelope, Envelope, Metadata, NodeType, Version};
pub use error::FsError;
pub use file::PrivateFile;
pub use header::{Namefilter, PrivateNodeHeader, PrivateRef, Ratchet, RatchetKey, Rng};
pub use rng::SeededRng;

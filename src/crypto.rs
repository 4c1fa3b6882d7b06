//! The outside primitives: the AES-256-GCM cipher, the SHA3-256 digest, and
//! std's conversion of ASCII bytes to a `String`.

use vstd::prelude::*;
use aes_gcm::aead::{Aead, KeyInit};
use sha3::Digest;

verus! {

/// Bytes in an AES-256 key.
pub const KEY_LEN: usize = 32;

/// Bytes in an AES-GCM nonce.
pub const NONCE_LEN: usize = 12;

/// Bytes in an AES-GCM authentication tag.
pub const TAG_LEN: usize = 16;

/// The largest plaintext that AES-GCM accepts, in bytes.
pub const MAX_PLAINTEXT: u64 = 0x10_0000_0000;

#[verifier::external_type_specification]
#[verifier::external_body]
pub struct ExAeadError(aes_gcm::Error);

/// What AES-256-GCM produces for a key, a nonce and a plaintext, with no
/// associated data: the ciphertext followed by the tag.
pub uninterp spec fn aes_gcm_seal(key: Seq<u8>, nonce: Seq<u8>, plaintext: Seq<u8>) -> Seq<u8>;

/// What AES-256-GCM recovers from a ciphertext with its tag under a key and
/// a nonce, or `None` where the tag does not authenticate it.
pub uninterp spec fn aes_gcm_open(key: Seq<u8>, nonce: Seq<u8>, sealed: Seq<u8>) -> Option<
    Seq<u8>,
>;

/// The SHA3-256 digest of a byte string.
pub uninterp spec fn sha3_256(data: Seq<u8>) -> Seq<u8>;

/// Relies on `Aead::encrypt` of `aes_gcm::Aes256Gcm`: it fails only on a
/// plaintext over `MAX_PLAINTEXT` bytes, appends a 16-byte tag, and what it
/// produces is opened by `Aead::decrypt` under the same key and nonce.
#[verifier::external_body]
pub(crate) fn seal(key: &Vec<u8>, nonce: &Vec<u8>, plaintext: &Vec<u8>) -> (r: Result<
    Vec<u8>,
    aes_gcm::Error,
>)
    requires
        key@.len() == KEY_LEN,
        nonce@.len() == NONCE_LEN,
    ensures
        r is Ok <==> plaintext@.len() <= MAX_PLAINTEXT,
        r is Ok ==> r->Ok_0@ == aes_gcm_seal(key@, nonce@, plaintext@),
        r is Ok ==> r->Ok_0@.len() == plaintext@.len() + TAG_LEN,
        r is Ok ==> aes_gcm_open(key@, nonce@, r->Ok_0@) == Some(plaintext@),
{
    let cipher = aes_gcm::Aes256Gcm::new(aes_gcm::Key::<aes_gcm::Aes256Gcm>::from_slice(key));
    cipher.encrypt(aes_gcm::Nonce::from_slice(nonce), plaintext.as_slice())
}

/// Relies on `Aead::decrypt` of `aes_gcm::Aes256Gcm`: the plaintext where
/// the tag authenticates the ciphertext, an error where it does not.
#[verifier::external_body]
pub(crate) fn open(key: &Vec<u8>, nonce: &Vec<u8>, sealed: &Vec<u8>) -> (r: Result<
    Vec<u8>,
    aes_gcm::Error,
>)
    requires
        key@.len() == KEY_LEN,
        nonce@.len() == NONCE_LEN,
    ensures
        r is Ok <==> aes_gcm_open(key@, nonce@, sealed@) is Some,
        r is Ok ==> aes_gcm_open(key@, nonce@, sealed@) == Some(r->Ok_0@),
{
    let cipher = aes_gcm::Aes256Gcm::new(aes_gcm::Key::<aes_gcm::Aes256Gcm>::from_slice(key));
    cipher.decrypt(aes_gcm::Nonce::from_slice(nonce), sealed.as_slice())
}

/// Relies on `Digest::digest` of `sha3::Sha3_256`: a 32-byte digest of the
/// input.
#[verifier::external_body]
pub(crate) fn digest(data: &Vec<u8>) -> (r: Vec<u8>)
    ensures
        r@ == sha3_256(data@),
        r@.len() == 32,
{
    sha3::Sha3_256::digest(data.as_slice()).to_vec()
}

/// The characters that ASCII bytes stand for.
pub open spec fn ascii_chars(b: Seq<u8>) -> Seq<char> {
    b.map_values(|c: u8| c as char)
}

/// Relies on `String::from_utf8`: ASCII bytes are valid UTF-8, each byte one
/// character.
#[verifier::external_body]
pub(crate) fn ascii_string(b: Vec<u8>) -> (r: String)
    requires
        forall|i: int| 0 <= i < b@.len() ==> b@[i] < 128,
    ensures
        r@ == ascii_chars(b@),
{
    String::from_utf8(b).unwrap()
}

} // verus!

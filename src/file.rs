//! A private file node and the protocol that seals it into an envelope and
//! opens it again.

use vstd::prelude::*;
use crate::crypto::{aes_gcm_open, aes_gcm_seal, ascii_chars, ascii_string, open, seal, sha3_256, KEY_LEN, MAX_PLAINTEXT, NONCE_LEN, TAG_LEN};
use crate::envelope::{envelope_bytes, lemma_parse_envelope_bytes, open_envelope, open_envelope_spec, parse_envelope, split_sealed, Envelope, EnvelopeView, Metadata, NodeType, Version};
use crate::error::FsError;
use crate::header::{header_bytes, lemma_parse_header_bytes, parse_header, ratchet_key_of, ratchet_ok, HeaderView, Namefilter, PrivateNodeHeader, RatchetKey, Rng, FILTER_HASHES, SEED_LEN, with_hashes};

verus! {

/// What a file holds, as plain values.
pub struct FileView {
    pub version: Version,
    pub header: HeaderView,
    pub metadata: Metadata,
    pub content: Seq<u8>,
}

/// A file node: a version, a header of its own, metadata, and its content
/// inline.
#[derive(Debug, Clone)]
pub struct PrivateFile {
    pub version: Version,
    pub header: PrivateNodeHeader,
    pub metadata: Metadata,
    pub content: Vec<u8>,
}

impl View for PrivateFile {
    type V = FileView;

    open spec fn view(&self) -> FileView {
        FileView {
            version: self.version,
            header: self.header@,
            metadata: self.metadata,
            content: self.content@,
        }
    }
}

/// The key that protects a header: that of its key chain's current
/// generation.
pub open spec fn key_of(h: HeaderView) -> Seq<u8> {
    ratchet_key_of(h.state, h.generation)
}

/// The sealed header: the nonce, then the header's encoding encrypted under
/// the key and the nonce.
pub open spec fn sealed_header(key: Seq<u8>, nonce: Seq<u8>, h: HeaderView) -> Seq<u8> {
    nonce + aes_gcm_seal(key, nonce, header_bytes(h))
}

/// The envelope of a file whose header is sealed under `nonce`.
pub open spec fn file_envelope(f: FileView, nonce: Seq<u8>) -> EnvelopeView {
    EnvelopeView {
        kind: NodeType::PrivateFile,
        version: f.version,
        header: sealed_header(key_of(f.header), nonce, f.header),
        metadata: f.metadata,
        content: f.content,
    }
}

/// What serializing a file with `nonce` gives.
pub open spec fn serialize_spec(f: FileView, nonce: Seq<u8>) -> Result<Seq<u8>, FsError> {
    if !ratchet_ok(f.header.state) {
        Err(FsError::KeyDerivation)
    } else if header_bytes(f.header).len() > MAX_PLAINTEXT {
        Err(FsError::Encryption)
    } else {
        Ok(envelope_bytes(file_envelope(f, nonce)))
    }
}

/// What deserializing `bytes` as a file with `key` gives: the tag is
/// checked before anything is decrypted.
pub open spec fn deserialize_spec(bytes: Seq<u8>, key: Seq<u8>) -> Result<FileView, FsError> {
    match open_envelope_spec(bytes, NodeType::PrivateFile) {
        Err(err) => Err(err),
        Ok(e) => if key.len() != KEY_LEN || e.header.len() < NONCE_LEN {
            Err(FsError::AuthenticationFailure)
        } else {
            match aes_gcm_open(key, e.header.take(NONCE_LEN as int), e.header.skip(NONCE_LEN as int)) {
                None => Err(FsError::AuthenticationFailure),
                Some(plain) => match parse_header(plain) {
                    None => Err(FsError::MalformedHeader),
                    Some(h) => Ok(
                        FileView {
                            version: e.version,
                            header: h,
                            metadata: e.metadata,
                            content: e.content,
                        },
                    ),
                },
            }
        },
    }
}

/// The hexadecimal digit of a value below 16.
pub open spec fn hex_digit(v: u8) -> u8 {
    if v < 10 {
        (v + 48) as u8
    } else {
        (v + 87) as u8
    }
}

/// Lower-case hexadecimal of a byte string, two digits a byte.
pub open spec fn hex_of(b: Seq<u8>) -> Seq<u8>
    decreases b.len(),
{
    if b.len() == 0 {
        Seq::empty()
    } else {
        hex_of(b.drop_last()) + seq![hex_digit(b.last() / 16), hex_digit(b.last() % 16)]
    }
}

fn hex_digit_exec(v: u8) -> (r: u8)
    requires
        v < 16,
    ensures
        r == hex_digit(v),
        r < 128,
{
    if v < 10 {
        v + 48
    } else {
        v + 87
    }
}

/// The node kind is checked before any decryption: bytes that encode an
/// envelope of another kind are refused with a type mismatch by a decoder of
/// that other kind, and, where they are not a private file, by the file
/// decoder under every key.
pub proof fn lemma_type_checked_before_decryption(bytes: Seq<u8>, expected: NodeType, key: Seq<u8>)
    requires
        parse_envelope(bytes) is Some,
        parse_envelope(bytes)->Some_0.kind != expected,
    ensures
        open_envelope_spec(bytes, expected) == Err::<EnvelopeView, FsError>(FsError::TypeMismatch),
        parse_envelope(bytes)->Some_0.kind != NodeType::PrivateFile ==> deserialize_spec(bytes, key)
            == Err::<FileView, FsError>(FsError::TypeMismatch),
{
}

/// A file envelope whose sealed header the cipher does not open under `key`
/// is refused with an authentication failure, and no file comes out.
pub proof fn lemma_unopened_header_fails_authentication(bytes: Seq<u8>, key: Seq<u8>)
    requires
        parse_envelope(bytes) is Some,
        parse_envelope(bytes)->Some_0.kind == NodeType::PrivateFile,
        key.len() == KEY_LEN,
        parse_envelope(bytes)->Some_0.header.len() >= NONCE_LEN,
        aes_gcm_open(
            key,
            parse_envelope(bytes)->Some_0.header.take(NONCE_LEN as int),
            parse_envelope(bytes)->Some_0.header.skip(NONCE_LEN as int),
        ) is None,
    ensures
        deserialize_spec(bytes, key) == Err::<FileView, FsError>(FsError::AuthenticationFailure),
{
}

/// The sealed header of an envelope opens with the nonce it was sealed
/// under: envelopes of one file sealed under distinct nonces differ.
pub proof fn lemma_distinct_nonces_distinct_envelopes(f: FileView, n1: Seq<u8>, n2: Seq<u8>)
    requires
        n1.len() == NONCE_LEN,
        n2.len() == NONCE_LEN,
        n1 != n2,
    ensures
        envelope_bytes(file_envelope(f, n1)) != envelope_bytes(file_envelope(f, n2)),
{
    let b1 = envelope_bytes(file_envelope(f, n1));
    let b2 = envelope_bytes(file_envelope(f, n2));
    let at: int = 33int;
    assert(b1.subrange(at, at + 12int) =~= n1);
    assert(b2.subrange(at, at + 12int) =~= n2);
}

impl PrivateFile {
    /// A file with `content`, created at `time`, whose header is fresh and a
    /// child of `parent_bare_name`.
    pub fn new<R: Rng>(parent_bare_name: Namefilter, time: i64, content: Vec<u8>, rng: &mut R) -> (r: PrivateFile)
        requires
            parent_bare_name.wf(),
        ensures
            r.version == Version::new_spec(0, 2, 0),
            r.metadata == (Metadata { created: time, modified: time }),
            r.content@ == content@,
            r.header.wf(),
            r.header.inumber@ == old(rng).peek(SEED_LEN as nat),
            r.header.ratchet.state@ == old(rng).advanced(SEED_LEN as nat).peek(SEED_LEN as nat),
            *final(rng) == old(rng).advanced(SEED_LEN as nat).advanced(SEED_LEN as nat),
            r.header.inumber@.len() == SEED_LEN,
            r.header.ratchet.state@.len() == SEED_LEN,
            r.header.ratchet.generation == 0,
            r.header.bare_name.bits@ == with_hashes(parent_bare_name.bits@, sha3_256(r.header.inumber@), FILTER_HASHES as nat),
    {
        PrivateFile {
            version: Version::new(0, 2, 0),
            header: PrivateNodeHeader::new(parent_bare_name, rng),
            metadata: Metadata::new(time),
            content,
        }
    }

    /// Serializes the file with its header sealed under `nonce`. Whatever
    /// comes out deserializes to the file under the header's key.
    pub fn serialize_with_nonce(&self, nonce: &Vec<u8>) -> (r: Result<Vec<u8>, FsError>)
        requires
            nonce@.len() == NONCE_LEN,
        ensures
            match serialize_spec(self@, nonce@) {
                Ok(b) => r is Ok && r->Ok_0@ == b,
                Err(err) => r == Err::<Vec<u8>, FsError>(err),
            },
            r is Ok ==> deserialize_spec(r->Ok_0@, key_of(self.header@)) == Ok::<FileView, FsError>(self@),
            r is Ok ==> parse_envelope(r->Ok_0@) == Some(file_envelope(self@, nonce@)),
            r is Ok ==> file_envelope(self@, nonce@).header.len() == NONCE_LEN + header_bytes(self.header@).len() + TAG_LEN,
    {
        let key = match self.header.get_private_ref() {
            Ok(p) => p.ratchet_key,
            Err(err) => return Err(err),
        };
        let plain = self.header.encode();
        let sealed = match seal(&key.0, nonce, &plain) {
            Ok(c) => c,
            Err(_) => return Err(FsError::Encryption),
        };
        let mut header = nonce.clone();
        let mut i: usize = 0;
        while i < sealed.len()
            invariant
                i <= sealed@.len(),
                header@ == nonce@ + sealed@.take(i as int),
            decreases sealed@.len() - i,
        {
            header.push(sealed[i]);
            i = i + 1;
            assert(header@ =~= nonce@ + sealed@.take(i as int));
        }
        assert(sealed@.take(sealed@.len() as int) =~= sealed@);
        let env = Envelope {
            kind: NodeType::PrivateFile,
            version: self.version,
            header,
            metadata: self.metadata,
            content: self.content.clone(),
        };
        assert(env@ == file_envelope(self@, nonce@));
        let out = env.encode();
        proof {
            lemma_parse_envelope_bytes(env@);
            lemma_parse_header_bytes(self.header@);
            assert(env@.header.take(NONCE_LEN as int) =~= nonce@);
            assert(env@.header.skip(NONCE_LEN as int) =~= sealed@);
        }
        Ok(out)
    }

    /// Serializes the file with its header sealed under a fresh nonce drawn
    /// from `rng`. The key is derived first: where it cannot be, nothing is
    /// drawn.
    pub fn serialize<R: Rng>(&self, rng: &mut R) -> (r: Result<Vec<u8>, FsError>)
        ensures
            !ratchet_ok(self.header@.state) ==> r == Err::<Vec<u8>, FsError>(FsError::KeyDerivation)
                && *final(rng) == *old(rng),
            ratchet_ok(self.header@.state) ==> *final(rng) == old(rng).advanced(NONCE_LEN as nat),
            ratchet_ok(self.header@.state) && header_bytes(self.header@).len() > MAX_PLAINTEXT
                ==> r == Err::<Vec<u8>, FsError>(FsError::Encryption),
            ratchet_ok(self.header@.state) && header_bytes(self.header@).len() <= MAX_PLAINTEXT
                ==> r is Ok,
            r is Ok ==> serialize_spec(self@, old(rng).peek(NONCE_LEN as nat)) == Ok::<Seq<u8>, FsError>(r->Ok_0@),
            r is Ok ==> file_envelope(self@, old(rng).peek(NONCE_LEN as nat)).header.len()
                == NONCE_LEN + header_bytes(self.header@).len() + TAG_LEN,
            r is Ok ==> deserialize_spec(r->Ok_0@, key_of(self.header@)) == Ok::<FileView, FsError>(self@),
    {
        if let Err(err) = self.header.get_private_ref() {
            return Err(err);
        }
        let nonce = rng.random_bytes(NONCE_LEN);
        self.serialize_with_nonce(&nonce)
    }

    /// Deserializes a file from `bytes` with `key`: the envelope is decoded
    /// and its tag checked first, then the header is decrypted and decoded.
    pub fn deserialize(bytes: &Vec<u8>, key: &RatchetKey) -> (r: Result<PrivateFile, FsError>)
        ensures
            match deserialize_spec(bytes@, key.0@) {
                Ok(f) => r is Ok && r->Ok_0@ == f,
                Err(err) => r == Err::<PrivateFile, FsError>(err),
            },
    {
        let env = match open_envelope(bytes, NodeType::PrivateFile) {
            Ok(e) => e,
            Err(err) => return Err(err),
        };
        if key.0.len() != KEY_LEN || env.header.len() < NONCE_LEN {
            return Err(FsError::AuthenticationFailure);
        }
        let (nonce, sealed) = split_sealed(&env.header, NONCE_LEN);
        let plain = match open(&key.0, &nonce, &sealed) {
            Ok(p) => p,
            Err(_) => return Err(FsError::AuthenticationFailure),
        };
        let header = match PrivateNodeHeader::decode(&plain) {
            Ok(h) => h,
            Err(err) => return Err(err),
        };
        Ok(PrivateFile { version: env.version, header, metadata: env.metadata, content: env.content })
    }

    /// A handle for the file within one run: the hexadecimal of its header's
    /// inode number.
    pub fn get_id(&self) -> (r: String)
        ensures
            r@ == ascii_chars(hex_of(self.header.inumber@)),
    {
        let b = &self.header.inumber;
        let mut out: Vec<u8> = Vec::new();
        let mut i: usize = 0;
        while i < b.len()
            invariant
                i <= b@.len(),
                out@ == hex_of(b@.take(i as int)),
                forall|j: int| 0 <= j < out@.len() ==> out@[j] < 128,
            decreases b@.len() - i,
        {
            let hi = hex_digit_exec(b[i] / 16);
            let lo = hex_digit_exec(b[i] % 16);
            out.push(hi);
            out.push(lo);
            assert(b@.take(i + 1).drop_last() =~= b@.take(i as int));
            i = i + 1;
        }
        assert(b@.take(b@.len() as int) =~= b@);
        ascii_string(out)
    }
}

} // verus!

//! The wire envelope: a node-kind tag, a version, the sealed header,
//! metadata and content, in the canonical byte encoding.

use vstd::prelude::*;
use crate::codec::{copy_range, field, le_bytes, read_field, read_u64, take_field, take_u64, write_field, write_u64, lemma_take_field, lemma_take_u64};
use crate::error::FsError;

verus! {

/// A semantic version triple.
#[derive(Debug, Clone, Copy, PartialEq, Eq, Structural)]
pub struct Version {
    pub major: u64,
    pub minor: u64,
    pub patch: u64,
}

impl Version {
    pub open spec fn new_spec(major: u64, minor: u64, patch: u64) -> Version {
        Version { major, minor, patch }
    }

    #[verifier::when_used_as_spec(new_spec)]
    pub fn new(major: u64, minor: u64, patch: u64) -> (r: Version)
        ensures
            r == Version::new_spec(major, minor, patch),
    {
        Version { major, minor, patch }
    }
}

/// A node's attributes: when it was created and last modified, in seconds
/// since the Unix epoch.
#[derive(Debug, Clone, Copy, PartialEq, Eq, Structural)]
pub struct Metadata {
    pub created: i64,
    pub modified: i64,
}

impl Metadata {
    /// The attributes of a node created at `time`.
    pub fn new(time: i64) -> (r: Metadata)
        ensures
            r == (Metadata { created: time, modified: time }),
    {
        Metadata { created: time, modified: time }
    }
}

/// The kinds of node that an envelope can carry.
#[derive(Debug, Clone, Copy, PartialEq, Eq, Structural)]
pub enum NodeType {
    PublicFile,
    PublicDirectory,
    PrivateFile,
    PrivateDirectory,
}

/// The tag byte of a node kind.
pub open spec fn tag_of(k: NodeType) -> u8 {
    match k {
        NodeType::PublicFile => 0,
        NodeType::PublicDirectory => 1,
        NodeType::PrivateFile => 2,
        NodeType::PrivateDirectory => 3,
    }
}

/// The node kind of a tag byte, if it names one.
pub open spec fn kind_of(t: u8) -> Option<NodeType> {
    if t == 0 {
        Some(NodeType::PublicFile)
    } else if t == 1 {
        Some(NodeType::PublicDirectory)
    } else if t == 2 {
        Some(NodeType::PrivateFile)
    } else if t == 3 {
        Some(NodeType::PrivateDirectory)
    } else {
        None
    }
}

impl NodeType {
    /// The tag byte of the kind.
    pub fn tag(&self) -> (r: u8)
        ensures
            r == tag_of(*self),
    {
        match self {
            NodeType::PublicFile => 0,
            NodeType::PublicDirectory => 1,
            NodeType::PrivateFile => 2,
            NodeType::PrivateDirectory => 3,
        }
    }

    /// The kind that a tag byte names.
    pub fn from_tag(t: u8) -> (r: Option<NodeType>)
        ensures
            r == kind_of(t),
    {
        if t == 0 {
            Some(NodeType::PublicFile)
        } else if t == 1 {
            Some(NodeType::PublicDirectory)
        } else if t == 2 {
            Some(NodeType::PrivateFile)
        } else if t == 3 {
            Some(NodeType::PrivateDirectory)
        } else {
            None
        }
    }
}

/// What an envelope holds, as plain values.
pub struct EnvelopeView {
    pub kind: NodeType,
    pub version: Version,
    pub header: Seq<u8>,
    pub metadata: Metadata,
    pub content: Seq<u8>,
}

/// An envelope: the header field holds the sealed header.
#[derive(Debug, Clone)]
pub struct Envelope {
    pub kind: NodeType,
    pub version: Version,
    pub header: Vec<u8>,
    pub metadata: Metadata,
    pub content: Vec<u8>,
}

impl View for Envelope {
    type V = EnvelopeView;

    open spec fn view(&self) -> EnvelopeView {
        EnvelopeView {
            kind: self.kind,
            version: self.version,
            header: self.header@,
            metadata: self.metadata,
            content: self.content@,
        }
    }
}

/// The canonical encoding of an envelope.
pub open spec fn envelope_bytes(e: EnvelopeView) -> Seq<u8> {
    seq![tag_of(e.kind)] + le_bytes(e.version.major) + le_bytes(e.version.minor) + le_bytes(
        e.version.patch,
    ) + field(e.header) + le_bytes(e.metadata.created as u64) + le_bytes(
        e.metadata.modified as u64,
    ) + field(e.content)
}

/// The envelope that `s` encodes, if it encodes one.
pub open spec fn parse_envelope(s: Seq<u8>) -> Option<EnvelopeView> {
    if s.len() < 1 || kind_of(s[0]) is None {
        None
    } else {
        match take_u64(s, 1) {
            Some((major, pos1)) => match take_u64(s, pos1) {
                Some((minor, pos2)) => match take_u64(s, pos2) {
                    Some((patch, pos3)) => match take_field(s, pos3) {
                        Some((header, pos4)) => match take_u64(s, pos4) {
                            Some((created, pos5)) => match take_u64(s, pos5) {
                                Some((modified, pos6)) => match take_field(s, pos6) {
                                    Some((content, pos7)) => if pos7 == s.len() {
                                        Some(
                                            EnvelopeView {
                                                kind: kind_of(s[0])->Some_0,
                                                version: Version { major, minor, patch },
                                                header,
                                                metadata: Metadata {
                                                    created: created as i64,
                                                    modified: modified as i64,
                                                },
                                                content,
                                            },
                                        )
                                    } else {
                                        None
                                    },
                                    None => None,
                                },
                                None => None,
                            },
                            None => None,
                        },
                        None => None,
                    },
                    None => None,
                },
                None => None,
            },
            None => None,
        }
    }
}

proof fn lemma_kind_of_tag(k: NodeType)
    ensures
        kind_of(tag_of(k)) == Some(k),
{
}

proof fn lemma_i64_as_u64(x: i64)
    ensures
        (x as u64) as i64 == x,
{
    assert((x as u64) as i64 == x) by (bit_vector);
}

/// An envelope's encoding decodes to that envelope.
#[verifier::rlimit(50)]
pub proof fn lemma_parse_envelope_bytes(e: EnvelopeView)
    requires
        e.header.len() <= u64::MAX,
        e.content.len() <= u64::MAX,
    ensures
        parse_envelope(envelope_bytes(e)) == Some(e),
{
    let s = envelope_bytes(e);
    let t = seq![tag_of(e.kind)];
    let v1 = le_bytes(e.version.major);
    let v2 = le_bytes(e.version.minor);
    let v3 = le_bytes(e.version.patch);
    let fh = field(e.header);
    let m1 = le_bytes(e.metadata.created as u64);
    let m2 = le_bytes(e.metadata.modified as u64);
    let fc = field(e.content);
    let em = Seq::<u8>::empty();
    lemma_kind_of_tag(e.kind);
    lemma_i64_as_u64(e.metadata.created);
    lemma_i64_as_u64(e.metadata.modified);
    assert(s[0] == tag_of(e.kind));

    let a1 = t;
    assert(s == a1 + v1 + (v2 + v3 + fh + m1 + m2 + fc)) by {
        assert(s =~= a1 + v1 + (v2 + v3 + fh + m1 + m2 + fc));
    }
    lemma_take_u64(a1, e.version.major, v2 + v3 + fh + m1 + m2 + fc);
    let a2 = a1 + v1;
    assert(s == a2 + v2 + (v3 + fh + m1 + m2 + fc)) by {
        assert(s =~= a2 + v2 + (v3 + fh + m1 + m2 + fc));
    }
    lemma_take_u64(a2, e.version.minor, v3 + fh + m1 + m2 + fc);
    let a3 = a2 + v2;
    assert(s == a3 + v3 + (fh + m1 + m2 + fc)) by {
        assert(s =~= a3 + v3 + (fh + m1 + m2 + fc));
    }
    lemma_take_u64(a3, e.version.patch, fh + m1 + m2 + fc);
    let a4 = a3 + v3;
    assert(s == a4 + fh + (m1 + m2 + fc)) by {
        assert(s =~= a4 + fh + (m1 + m2 + fc));
    }
    lemma_take_field(a4, e.header, m1 + m2 + fc);
    let a5 = a4 + fh;
    assert(s == a5 + m1 + (m2 + fc)) by {
        assert(s =~= a5 + m1 + (m2 + fc));
    }
    lemma_take_u64(a5, e.metadata.created as u64, m2 + fc);
    let a6 = a5 + m1;
    assert(s == a6 + m2 + fc) by {
        assert(s =~= a6 + m2 + fc);
    }
    lemma_take_u64(a6, e.metadata.modified as u64, fc);
    let a7 = a6 + m2;
    assert(s == a7 + fc + em) by {
        assert(s =~= a7 + fc + em);
    }
    lemma_take_field(a7, e.content, em);
    assert(s.len() == a7.len() + fc.len());
}

impl Envelope {
    /// The canonical encoding of the envelope.
    pub fn encode(&self) -> (r: Vec<u8>)
        ensures
            r@ == envelope_bytes(self@),
    {
        let mut out: Vec<u8> = Vec::new();
        out.push(self.kind.tag());
        write_u64(&mut out, self.version.major);
        write_u64(&mut out, self.version.minor);
        write_u64(&mut out, self.version.patch);
        write_field(&mut out, &self.header);
        write_u64(&mut out, self.metadata.created as u64);
        write_u64(&mut out, self.metadata.modified as u64);
        write_field(&mut out, &self.content);
        assert(out@ =~= envelope_bytes(self@));
        out
    }

    /// The envelope that `bytes` encodes.
    pub fn decode(bytes: &Vec<u8>) -> (r: Result<Envelope, FsError>)
        ensures
            match parse_envelope(bytes@) {
                Some(e) => r is Ok && r->Ok_0@ == e,
                None => r == Err::<Envelope, FsError>(FsError::MalformedEnvelope),
            },
    {
        if bytes.len() < 1 {
            return Err(FsError::MalformedEnvelope);
        }
        let kind = match NodeType::from_tag(bytes[0]) {
            Some(k) => k,
            None => return Err(FsError::MalformedEnvelope),
        };
        let (major, pos1) = match read_u64(bytes, 1) {
            Some(v) => v,
            None => return Err(FsError::MalformedEnvelope),
        };
        let (minor, pos2) = match read_u64(bytes, pos1) {
            Some(v) => v,
            None => return Err(FsError::MalformedEnvelope),
        };
        let (patch, pos3) = match read_u64(bytes, pos2) {
            Some(v) => v,
            None => return Err(FsError::MalformedEnvelope),
        };
        let (header, pos4) = match read_field(bytes, pos3) {
            Some(v) => v,
            None => return Err(FsError::MalformedEnvelope),
        };
        let (created, pos5) = match read_u64(bytes, pos4) {
            Some(v) => v,
            None => return Err(FsError::MalformedEnvelope),
        };
        let (modified, pos6) = match read_u64(bytes, pos5) {
            Some(v) => v,
            None => return Err(FsError::MalformedEnvelope),
        };
        let (content, pos7) = match read_field(bytes, pos6) {
            Some(v) => v,
            None => return Err(FsError::MalformedEnvelope),
        };
        if pos7 != bytes.len() {
            return Err(FsError::MalformedEnvelope);
        }
        Ok(Envelope {
            kind,
            version: Version { major, minor, patch },
            header,
            metadata: Metadata { created: created as i64, modified: modified as i64 },
            content,
        })
    }
}

/// What decoding `bytes` as an envelope of kind `expected` gives.
pub open spec fn open_envelope_spec(bytes: Seq<u8>, expected: NodeType) -> Result<EnvelopeView, FsError> {
    match parse_envelope(bytes) {
        None => Err(FsError::MalformedEnvelope),
        Some(e) => if e.kind != expected {
            Err(FsError::TypeMismatch)
        } else {
            Ok(e)
        },
    }
}

/// Decodes `bytes` as an envelope and checks its tag against `expected`;
/// nothing is decrypted.
pub fn open_envelope(bytes: &Vec<u8>, expected: NodeType) -> (r: Result<Envelope, FsError>)
    ensures
        match open_envelope_spec(bytes@, expected) {
            Ok(e) => r is Ok && r->Ok_0@ == e,
            Err(err) => r == Err::<Envelope, FsError>(err),
        },
{
    let env = match Envelope::decode(bytes) {
        Ok(e) => e,
        Err(err) => return Err(err),
    };
    if env.kind != expected {
        return Err(FsError::TypeMismatch);
    }
    Ok(env)
}

/// Splits a sealed header into its leading nonce and the ciphertext after
/// it.
pub fn split_sealed(sealed: &Vec<u8>, n: usize) -> (r: (Vec<u8>, Vec<u8>))
    requires
        n <= sealed@.len(),
    ensures
        r.0@ == sealed@.take(n as int),
        r.1@ == sealed@.skip(n as int),
{
    let a = copy_range(sealed, 0, n);
    let b = copy_range(sealed, n, sealed.len());
    (a, b)
}

} // verus!

//! A node's header: its place in the name accumulator, its key chain, and
//! the key that the chain yields.

use vstd::prelude::*;
use crate::codec::{field, le_bytes, read_field, read_u64, take_field, take_u64, write_field, write_u64, lemma_take_field, lemma_take_u64};
use crate::crypto::{digest, sha3_256, KEY_LEN};
use crate::error::FsError;

verus! {

/// Bytes in a name accumulator.
pub const FILTER_LEN: usize = 256;

/// Bits that each added item sets in a name accumulator.
pub const FILTER_HASHES: usize = 16;

/// Bytes of randomness in an inode number and in a key chain seed.
pub const SEED_LEN: usize = 32;

/// A source of random bytes, supplied by the caller.
pub trait Rng: Sized {
    /// The next `n` bytes that the source will hand out.
    spec fn peek(&self, n: nat) -> Seq<u8>;

    /// The source after it has handed out `n` bytes.
    spec fn advanced(&self, n: nat) -> Self;

    /// The next `n` random bytes.
    fn random_bytes(&mut self, n: usize) -> (r: Vec<u8>)
        ensures
            r@ == old(self).peek(n as nat),
            r@.len() == n,
            *final(self) == old(self).advanced(n as nat),
    ;
}

/// The bit position that hash `j` of a digest selects.
pub open spec fn bit_index(d: Seq<u8>, j: int) -> int {
    (d[2 * j] as int * 256 + d[2 * j + 1] as int) % (FILTER_LEN as int * 8)
}

/// `bits` with bit `i` set.
pub open spec fn with_bit(bits: Seq<u8>, i: int) -> Seq<u8> {
    bits.update(i / 8, bits[i / 8] | (1u8 << ((i % 8) as u8)))
}

/// `bits` with the bits of the first `k` hashes of digest `d` set.
pub open spec fn with_hashes(bits: Seq<u8>, d: Seq<u8>, k: nat) -> Seq<u8>
    decreases k,
{
    if k == 0 {
        bits
    } else {
        with_bit(with_hashes(bits, d, (k - 1) as nat), bit_index(d, k - 1))
    }
}

/// A Bloom filter over the names of a node's ancestors and of the node
/// itself; a child's filter is its parent's with the child's inode number
/// added.
#[derive(Debug, Clone)]
pub struct Namefilter {
    pub bits: Vec<u8>,
}

impl Namefilter {
    pub open spec fn wf(&self) -> bool {
        self.bits@.len() == FILTER_LEN
    }

    /// The filter that holds nothing.
    pub fn empty() -> (r: Namefilter)
        ensures
            r.wf(),
            r.bits@ == Seq::new(FILTER_LEN as nat, |i: int| 0u8),
    {
        let mut bits: Vec<u8> = Vec::new();
        let mut i: usize = 0;
        while i < FILTER_LEN
            invariant
                i <= FILTER_LEN,
                bits@ == Seq::new(i as nat, |j: int| 0u8),
            decreases FILTER_LEN - i,
        {
            bits.push(0u8);
            i = i + 1;
            assert(bits@ =~= Seq::new(i as nat, |j: int| 0u8));
        }
        Namefilter { bits }
    }

    /// Adds `item`: sets the bits that the hashes of its SHA3-256 digest
    /// select.
    pub fn add(&mut self, item: &Vec<u8>)
        requires
            old(self).wf(),
        ensures
            final(self).wf(),
            final(self).bits@ == with_hashes(old(self).bits@, sha3_256(item@), FILTER_HASHES as nat),
    {
        let d = digest(item);
        let mut j: usize = 0;
        while j < FILTER_HASHES
            invariant
                j <= FILTER_HASHES,
                d@.len() == 32,
                d@ == sha3_256(item@),
                self.bits@ == with_hashes(old(self).bits@, d@, j as nat),
                self.bits@.len() == FILTER_LEN,
            decreases FILTER_HASHES - j,
        {
            let idx: usize = (d[2 * j] as usize * 256 + d[2 * j + 1] as usize) % (FILTER_LEN * 8);
            let byte = self.bits[idx / 8] | (1u8 << ((idx % 8) as u8));
            self.bits.set(idx / 8, byte);
            j = j + 1;
        }
    }
}

/// A forward-secure key chain: a secret state and the generation it stands
/// at.
#[derive(Debug, Clone)]
pub struct Ratchet {
    pub state: Vec<u8>,
    pub generation: u64,
}

/// The symmetric key of one generation of a key chain.
#[derive(Debug, Clone)]
pub struct RatchetKey(pub Vec<u8>);

/// The key material that a header yields.
#[derive(Debug, Clone)]
pub struct PrivateRef {
    pub ratchet_key: RatchetKey,
}

/// Whether a key chain state can yield a key.
pub open spec fn ratchet_ok(state: Seq<u8>) -> bool {
    state.len() == SEED_LEN
}

/// The key of a key chain at a generation: the digest of its state and
/// generation number.
pub open spec fn ratchet_key_of(state: Seq<u8>, generation: u64) -> Seq<u8> {
    sha3_256(state + le_bytes(generation))
}

impl Ratchet {
    /// A chain at generation zero from a seed.
    pub fn zero(seed: Vec<u8>) -> (r: Ratchet)
        ensures
            r.state@ == seed@,
            r.generation == 0,
    {
        Ratchet { state: seed, generation: 0 }
    }

    /// The key of the current generation.
    pub fn derive_key(&self) -> (r: Result<RatchetKey, FsError>)
        ensures
            ratchet_ok(self.state@) ==> r is Ok && r->Ok_0.0@ == ratchet_key_of(self.state@, self.generation),
            !ratchet_ok(self.state@) ==> r == Err::<RatchetKey, FsError>(FsError::KeyDerivation),
            r is Ok ==> r->Ok_0.0@.len() == KEY_LEN,
    {
        if self.state.len() != SEED_LEN {
            return Err(FsError::KeyDerivation);
        }
        let mut input = self.state.clone();
        write_u64(&mut input, self.generation);
        Ok(RatchetKey(digest(&input)))
    }
}

/// What a header holds, as plain values.
pub struct HeaderView {
    pub bare_name: Seq<u8>,
    pub inumber: Seq<u8>,
    pub state: Seq<u8>,
    pub generation: u64,
}

/// A node's header: its name accumulator, its inode number and its key
/// chain.
#[derive(Debug, Clone)]
pub struct PrivateNodeHeader {
    pub bare_name: Namefilter,
    pub inumber: Vec<u8>,
    pub ratchet: Ratchet,
}

impl View for PrivateNodeHeader {
    type V = HeaderView;

    open spec fn view(&self) -> HeaderView {
        HeaderView {
            bare_name: self.bare_name.bits@,
            inumber: self.inumber@,
            state: self.ratchet.state@,
            generation: self.ratchet.generation,
        }
    }
}

/// The canonical encoding of a header.
pub open spec fn header_bytes(h: HeaderView) -> Seq<u8> {
    field(h.bare_name) + field(h.inumber) + field(h.state) + le_bytes(h.generation)
}

/// The header that `s` encodes, if it encodes one.
pub open spec fn parse_header(s: Seq<u8>) -> Option<HeaderView> {
    match take_field(s, 0) {
        Some((bare_name, pos1)) => match take_field(s, pos1) {
            Some((inumber, pos2)) => match take_field(s, pos2) {
                Some((state, pos3)) => match take_u64(s, pos3) {
                    Some((generation, pos4)) => if pos4 == s.len() {
                        Some(HeaderView { bare_name, inumber, state, generation })
                    } else {
                        None
                    },
                    None => None,
                },
                None => None,
            },
            None => None,
        },
        None => None,
    }
}

/// A header's encoding decodes to that header.
pub proof fn lemma_parse_header_bytes(h: HeaderView)
    requires
        h.bare_name.len() <= u64::MAX,
        h.inumber.len() <= u64::MAX,
        h.state.len() <= u64::MAX,
    ensures
        parse_header(header_bytes(h)) == Some(h),
{
    let s = header_bytes(h);
    let g = le_bytes(h.generation);
    let f1 = field(h.bare_name);
    let f2 = field(h.inumber);
    let f3 = field(h.state);
    let e = Seq::<u8>::empty();
    let pos1 = f1.len() as int;
    let pos2 = pos1 + f2.len();
    let pos3 = pos2 + f3.len();
    assert(s == e + f1 + (f2 + f3 + g)) by {
        assert(s =~= e + f1 + (f2 + f3 + g));
    }
    lemma_take_field(e, h.bare_name, f2 + f3 + g);
    assert(take_field(s, 0) == Some((h.bare_name, pos1)));
    assert(s == f1 + f2 + (f3 + g)) by {
        assert(s =~= f1 + f2 + (f3 + g));
    }
    lemma_take_field(f1, h.inumber, f3 + g);
    assert(take_field(s, pos1) == Some((h.inumber, pos2)));
    assert(s == (f1 + f2) + f3 + g) by {
        assert(s =~= (f1 + f2) + f3 + g);
    }
    lemma_take_field(f1 + f2, h.state, g);
    assert(take_field(s, pos2) == Some((h.state, pos3)));
    assert(s == (f1 + f2 + f3) + g + e) by {
        assert(s =~= (f1 + f2 + f3) + g + e);
    }
    lemma_take_u64(f1 + f2 + f3, h.generation, e);
    assert(take_u64(s, pos3) == Some((h.generation, pos3 + 8)));
    assert(s.len() == pos3 + 8);
}

impl PrivateNodeHeader {
    pub open spec fn wf(&self) -> bool {
        self.bare_name.wf()
    }

    /// A fresh header for a child of `parent_bare_name`: a random inode
    /// number, added to the parent's accumulator, and a key chain at
    /// generation zero from a random seed.
    pub fn new<R: Rng>(parent_bare_name: Namefilter, rng: &mut R) -> (r: PrivateNodeHeader)
        requires
            parent_bare_name.wf(),
        ensures
            r.wf(),
            r.inumber@ == old(rng).peek(SEED_LEN as nat),
            r.ratchet.state@ == old(rng).advanced(SEED_LEN as nat).peek(SEED_LEN as nat),
            *final(rng) == old(rng).advanced(SEED_LEN as nat).advanced(SEED_LEN as nat),
            r.inumber@.len() == SEED_LEN,
            r.ratchet.state@.len() == SEED_LEN,
            r.ratchet.generation == 0,
            r.bare_name.bits@ == with_hashes(parent_bare_name.bits@, sha3_256(r.inumber@), FILTER_HASHES as nat),
    {
        let inumber = rng.random_bytes(SEED_LEN);
        let seed = rng.random_bytes(SEED_LEN);
        let mut bare_name = parent_bare_name;
        bare_name.add(&inumber);
        PrivateNodeHeader { bare_name, inumber, ratchet: Ratchet::zero(seed) }
    }

    /// The key material of the header's current key chain generation.
    pub fn get_private_ref(&self) -> (r: Result<PrivateRef, FsError>)
        ensures
            ratchet_ok(self.ratchet.state@) ==> r is Ok && r->Ok_0.ratchet_key.0@ == ratchet_key_of(self.ratchet.state@, self.ratchet.generation),
            !ratchet_ok(self.ratchet.state@) ==> r == Err::<PrivateRef, FsError>(FsError::KeyDerivation),
            r is Ok ==> r->Ok_0.ratchet_key.0@.len() == KEY_LEN,
    {
        match self.ratchet.derive_key() {
            Ok(k) => Ok(PrivateRef { ratchet_key: k }),
            Err(e) => Err(e),
        }
    }

    /// The canonical encoding of the header.
    pub fn encode(&self) -> (r: Vec<u8>)
        ensures
            r@ == header_bytes(self@),
    {
        let mut out: Vec<u8> = Vec::new();
        write_field(&mut out, &self.bare_name.bits);
        write_field(&mut out, &self.inumber);
        write_field(&mut out, &self.ratchet.state);
        write_u64(&mut out, self.ratchet.generation);
        assert(out@ =~= header_bytes(self@));
        out
    }

    /// The header that `bytes` encodes.
    pub fn decode(bytes: &Vec<u8>) -> (r: Result<PrivateNodeHeader, FsError>)
        ensures
            match parse_header(bytes@) {
                Some(h) => r is Ok && r->Ok_0@ == h,
                None => r == Err::<PrivateNodeHeader, FsError>(FsError::MalformedHeader),
            },
    {
        let (bits, pos1) = match read_field(bytes, 0) {
            Some(v) => v,
            None => return Err(FsError::MalformedHeader),
        };
        let (inumber, pos2) = match read_field(bytes, pos1) {
            Some(v) => v,
            None => return Err(FsError::MalformedHeader),
        };
        let (state, pos3) = match read_field(bytes, pos2) {
            Some(v) => v,
            None => return Err(FsError::MalformedHeader),
        };
        let (generation, pos4) = match read_u64(bytes, pos3) {
            Some(v) => v,
            None => return Err(FsError::MalformedHeader),
        };
        if pos4 != bytes.len() {
            return Err(FsError::MalformedHeader);
        }
        Ok(PrivateNodeHeader {
            bare_name: Namefilter { bits },
            inumber,
            ratchet: Ratchet { state, generation },
        })
    }
}

} // verus!

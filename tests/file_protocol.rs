use std::collections::HashSet;

use aes_gcm::aead::{Aead, KeyInit};
use private_file::codec::{read_field, read_u64, write_field, write_u64};
use private_file::envelope::Envelope;
use private_file::{
    open_envelope, FsError, Metadata, Namefilter, NodeType, PrivateFile, RatchetKey, Rng,
    SeededRng, Version,
};
use sha3::Digest;

/// A reproducible source seeded with `k`.
fn source(k: u8) -> SeededRng {
    SeededRng::new(vec![k; 32])
}

const TIME: i64 = 1_650_000_000;

fn sample_file(content: Vec<u8>) -> PrivateFile {
    let mut rng = source(7);
    PrivateFile::new(Namefilter::empty(), TIME, content, &mut rng)
}

fn key_of(f: &PrivateFile) -> RatchetKey {
    f.header.get_private_ref().unwrap().ratchet_key
}

fn assert_same_file(a: &PrivateFile, b: &PrivateFile) {
    assert_eq!(a.version, b.version);
    assert_eq!(a.metadata, b.metadata);
    assert_eq!(a.content, b.content);
    assert_eq!(a.header.bare_name.bits, b.header.bare_name.bits);
    assert_eq!(a.header.inumber, b.header.inumber);
    assert_eq!(a.header.ratchet.state, b.header.ratchet.state);
    assert_eq!(a.header.ratchet.generation, b.header.ratchet.generation);
}

/// Offset of the sealed header's bytes within an envelope: tag, three
/// version numbers, then the header field's length.
const HEADER_AT: usize = 1 + 24 + 8;

fn sealed_header_len(bytes: &[u8]) -> usize {
    let mut n = [0u8; 8];
    n.copy_from_slice(&bytes[25..33]);
    u64::from_le_bytes(n) as usize
}

#[test]
fn round_trip_restores_every_field() {
    let f = sample_file(vec![9, 8, 7, 6]);
    let mut rng = source(232);
    let bytes = f.serialize(&mut rng).unwrap();
    let g = PrivateFile::deserialize(&bytes, &key_of(&f)).unwrap();
    assert_same_file(&f, &g);
}

#[test]
fn round_trip_of_empty_content_and_negative_time() {
    let mut rng = source(3);
    let f = PrivateFile::new(Namefilter::empty(), -86_400, Vec::new(), &mut rng);
    let bytes = f.serialize(&mut rng).unwrap();
    let g = PrivateFile::deserialize(&bytes, &key_of(&f)).unwrap();
    assert_same_file(&f, &g);
    assert_eq!(g.metadata, Metadata { created: -86_400, modified: -86_400 });
}

#[test]
fn round_trip_at_a_later_generation() {
    let mut f = sample_file(vec![1]);
    f.header.ratchet.generation = u64::MAX;
    let key = key_of(&f);
    assert_ne!(key.0, key_of(&sample_file(vec![1])).0);
    let bytes = f.serialize_with_nonce(&vec![5u8; 12]).unwrap();
    let g = PrivateFile::deserialize(&bytes, &key).unwrap();
    assert_same_file(&f, &g);
}

#[test]
fn wrong_key_is_an_authentication_failure() {
    let f = sample_file(vec![1, 2, 3]);
    let mut rng = source(55);
    let bytes = f.serialize(&mut rng).unwrap();
    let good = key_of(&f);
    for i in 0..32 {
        let mut k = good.0.clone();
        k[i] ^= 0x01;
        let r = PrivateFile::deserialize(&bytes, &RatchetKey(k));
        assert_eq!(r.err(), Some(FsError::AuthenticationFailure));
    }
    let other = key_of(&PrivateFile::new(Namefilter::empty(), TIME, vec![], &mut rng));
    let r = PrivateFile::deserialize(&bytes, &other);
    assert_eq!(r.err(), Some(FsError::AuthenticationFailure));
}

#[test]
fn key_of_wrong_length_is_an_authentication_failure() {
    let f = sample_file(vec![1, 2, 3]);
    let bytes = f.serialize_with_nonce(&vec![0u8; 12]).unwrap();
    let short = RatchetKey(key_of(&f).0[..16].to_vec());
    let r = PrivateFile::deserialize(&bytes, &short);
    assert_eq!(r.err(), Some(FsError::AuthenticationFailure));
}

#[test]
fn every_flipped_header_bit_is_detected() {
    let f = sample_file(vec![1, 2, 3]);
    let key = key_of(&f);
    let bytes = f.serialize_with_nonce(&vec![3u8; 12]).unwrap();
    let n = sealed_header_len(&bytes);
    assert!(n > 12);
    for byte in HEADER_AT..HEADER_AT + n {
        for bit in 0..8 {
            let mut t = bytes.clone();
            t[byte] ^= 1u8 << bit;
            let r = PrivateFile::deserialize(&t, &key);
            assert_eq!(r.err(), Some(FsError::AuthenticationFailure), "byte {} bit {}", byte, bit);
        }
    }
}

#[test]
fn nonces_of_ten_thousand_calls_are_distinct() {
    let f = sample_file(vec![4, 5, 6]);
    let mut rng = source(200);
    let mut seen = HashSet::new();
    for _ in 0..10_000 {
        let bytes = f.serialize(&mut rng).unwrap();
        let nonce = bytes[HEADER_AT..HEADER_AT + 12].to_vec();
        assert!(seen.insert(nonce));
    }
    assert_eq!(seen.len(), 10_000);
}

#[test]
fn file_envelope_is_refused_by_a_directory_decoder() {
    let f = sample_file(vec![1, 2, 3]);
    let bytes = f.serialize_with_nonce(&vec![0u8; 12]).unwrap();
    let r = open_envelope(&bytes, NodeType::PrivateDirectory);
    assert_eq!(r.err(), Some(FsError::TypeMismatch));
    let env = open_envelope(&bytes, NodeType::PrivateFile).unwrap();
    assert_eq!(env.kind, NodeType::PrivateFile);
}

#[test]
fn directory_envelope_is_refused_before_decryption() {
    let f = sample_file(vec![1, 2, 3]);
    let mut bytes = f.serialize_with_nonce(&vec![0u8; 12]).unwrap();
    bytes[0] = 3;
    // The key is wrong too: a decryption attempt would fail otherwise.
    let r = PrivateFile::deserialize(&bytes, &RatchetKey(vec![0u8; 32]));
    assert_eq!(r.err(), Some(FsError::TypeMismatch));
    let r = PrivateFile::deserialize(&bytes, &RatchetKey(Vec::new()));
    assert_eq!(r.err(), Some(FsError::TypeMismatch));
}

#[test]
fn concrete_file_envelope() {
    let mut rng = source(42);
    let parent = Namefilter::empty();
    let f = PrivateFile::new(parent, TIME, vec![1, 2, 3], &mut rng);
    let bytes = f.serialize(&mut rng).unwrap();
    let env = Envelope::decode(&bytes).unwrap();
    assert_eq!(env.content, vec![1, 2, 3]);
    assert_eq!(env.version, Version::new(0, 2, 0));
    assert_eq!(env.kind, NodeType::PrivateFile);
    assert_eq!(env.metadata, Metadata { created: TIME, modified: TIME });
    let plain = f.header.encode();
    assert!(!env.header.is_empty());
    assert_ne!(env.header, plain);
    assert_eq!(env.header.len(), 12 + plain.len() + 16);
    assert!(!env.header[12..12 + plain.len()].eq(&plain[..]));
}

#[test]
fn new_file_has_version_metadata_and_fresh_header() {
    let mut rng = source(1);
    let f = PrivateFile::new(Namefilter::empty(), TIME, vec![7], &mut rng);
    let g = PrivateFile::new(Namefilter::empty(), TIME, vec![7], &mut rng);
    assert_eq!(f.version, Version { major: 0, minor: 2, patch: 0 });
    assert_eq!(f.metadata, Metadata::new(TIME));
    assert_eq!(f.content, vec![7]);
    assert_eq!(f.header.inumber.len(), 32);
    assert_eq!(f.header.ratchet.state.len(), 32);
    assert_eq!(f.header.ratchet.generation, 0);
    assert_ne!(f.header.inumber, g.header.inumber);
    assert_ne!(key_of(&f).0, key_of(&g).0);
}

#[test]
fn invalid_key_chain_is_a_key_derivation_error() {
    let mut f = sample_file(vec![1, 2, 3]);
    f.header.ratchet.state = vec![1, 2, 3];
    assert_eq!(f.header.get_private_ref().err(), Some(FsError::KeyDerivation));
    let mut rng = source(0);
    assert_eq!(f.serialize(&mut rng).err(), Some(FsError::KeyDerivation));
    assert_eq!(rng.counter, 0);
    assert_eq!(f.serialize_with_nonce(&vec![0u8; 12]).err(), Some(FsError::KeyDerivation));
}

#[test]
fn malformed_envelopes_are_refused() {
    let key = RatchetKey(vec![0u8; 32]);
    assert_eq!(PrivateFile::deserialize(&Vec::new(), &key).err(), Some(FsError::MalformedEnvelope));
    let f = sample_file(vec![1, 2, 3]);
    let bytes = f.serialize_with_nonce(&vec![0u8; 12]).unwrap();
    let mut longer = bytes.clone();
    longer.push(0);
    assert_eq!(PrivateFile::deserialize(&longer, &key_of(&f)).err(), Some(FsError::MalformedEnvelope));
    let shorter = bytes[..bytes.len() - 1].to_vec();
    assert_eq!(PrivateFile::deserialize(&shorter, &key_of(&f)).err(), Some(FsError::MalformedEnvelope));
    let mut bad_tag = bytes.clone();
    bad_tag[0] = 4;
    assert_eq!(PrivateFile::deserialize(&bad_tag, &key_of(&f)).err(), Some(FsError::MalformedEnvelope));
}

fn envelope_with_header(header: Vec<u8>) -> Vec<u8> {
    Envelope {
        kind: NodeType::PrivateFile,
        version: Version::new(0, 2, 0),
        header,
        metadata: Metadata::new(TIME),
        content: vec![1],
    }
    .encode()
}

#[test]
fn short_sealed_header_is_an_authentication_failure() {
    let bytes = envelope_with_header(vec![0u8; 11]);
    let r = PrivateFile::deserialize(&bytes, &RatchetKey(vec![0u8; 32]));
    assert_eq!(r.err(), Some(FsError::AuthenticationFailure));
}

#[test]
fn authentic_garbage_header_is_malformed() {
    let key = vec![0x11u8; 32];
    let nonce = [0x22u8; 12];
    let cipher = aes_gcm::Aes256Gcm::new(aes_gcm::Key::<aes_gcm::Aes256Gcm>::from_slice(&key));
    let sealed = cipher
        .encrypt(aes_gcm::Nonce::from_slice(&nonce), &[1u8, 2, 3][..])
        .unwrap();
    let mut header = nonce.to_vec();
    header.extend_from_slice(&sealed);
    let bytes = envelope_with_header(header);
    let r = PrivateFile::deserialize(&bytes, &RatchetKey(key));
    assert_eq!(r.err(), Some(FsError::MalformedHeader));
}

#[test]
fn sealed_header_opens_with_the_outside_cipher() {
    let f = sample_file(vec![1, 2, 3]);
    let nonce = vec![9u8; 12];
    let bytes = f.serialize_with_nonce(&nonce).unwrap();
    let n = sealed_header_len(&bytes);
    let sealed = &bytes[HEADER_AT..HEADER_AT + n];
    assert_eq!(&sealed[..12], &nonce[..]);
    let key = key_of(&f).0;
    let cipher = aes_gcm::Aes256Gcm::new(aes_gcm::Key::<aes_gcm::Aes256Gcm>::from_slice(&key));
    let plain = cipher.decrypt(aes_gcm::Nonce::from_slice(&nonce), &sealed[12..]).unwrap();
    assert_eq!(plain, f.header.encode());
}

#[test]
fn key_is_the_digest_of_state_and_generation() {
    let mut f = sample_file(vec![]);
    f.header.ratchet.state = vec![0u8; 32];
    f.header.ratchet.generation = 1;
    let mut input = vec![0u8; 32];
    input.extend_from_slice(&1u64.to_le_bytes());
    let expected = sha3::Sha3_256::digest(&input).to_vec();
    assert_eq!(key_of(&f).0, expected);
    let empty = sha3::Sha3_256::digest(b"").to_vec();
    assert_eq!(
        empty[..4].to_vec(),
        vec![0xa7, 0xff, 0xc6, 0xf8]
    );
}

#[test]
fn adding_to_a_name_filter_sets_the_digest_bits() {
    let item = vec![1u8, 2, 3, 4];
    let mut nf = Namefilter::empty();
    assert_eq!(nf.bits, vec![0u8; 256]);
    nf.add(&item);
    let d = sha3::Sha3_256::digest(&item).to_vec();
    let mut expected = vec![0u8; 256];
    for j in 0..16 {
        let idx = (d[2 * j] as usize * 256 + d[2 * j + 1] as usize) % 2048;
        expected[idx / 8] |= 1u8 << (idx % 8);
    }
    assert_eq!(nf.bits, expected);
    let before = nf.bits.clone();
    nf.add(&vec![5u8]);
    for i in 0..256 {
        assert_eq!(nf.bits[i] & before[i], before[i]);
    }
}

#[test]
fn child_name_filter_extends_the_parent() {
    let mut parent = Namefilter::empty();
    parent.add(&vec![42u8]);
    let mut rng = source(9);
    let f = PrivateFile::new(parent.clone(), TIME, vec![], &mut rng);
    let mut expected = parent.clone();
    expected.add(&f.header.inumber);
    assert_eq!(f.header.bare_name.bits, expected.bits);
    assert_ne!(f.header.bare_name.bits, parent.bits);
}

#[test]
fn id_is_the_hex_of_the_inode_number() {
    let mut f = sample_file(vec![]);
    f.header.inumber = vec![0x00, 0x0f, 0xa5, 0xff];
    assert_eq!(f.get_id(), "000fa5ff");
    let g = sample_file(vec![]);
    assert_eq!(g.get_id().len(), 64);
}

#[test]
fn integers_and_fields_encode_little_endian() {
    let mut out = Vec::new();
    write_u64(&mut out, 0x0102_0304_0506_0708);
    assert_eq!(out, vec![8, 7, 6, 5, 4, 3, 2, 1]);
    write_field(&mut out, &vec![0xaa, 0xbb]);
    assert_eq!(out[8..], [2, 0, 0, 0, 0, 0, 0, 0, 0xaa, 0xbb]);
    assert_eq!(read_u64(&out, 0), Some((0x0102_0304_0506_0708, 8)));
    assert_eq!(read_field(&out, 8), Some((vec![0xaa, 0xbb], 18)));
    assert_eq!(read_u64(&out, 11), None);
    assert_eq!(read_field(&out, 18), None);
}

#[test]
fn envelope_encoding_round_trips() {
    let env = Envelope {
        kind: NodeType::PublicDirectory,
        version: Version::new(1, 2, 3),
        header: vec![1, 2],
        metadata: Metadata { created: -1, modified: i64::MAX },
        content: vec![],
    };
    let bytes = env.encode();
    assert_eq!(bytes[0], 1);
    assert_eq!(bytes.len(), 1 + 24 + 8 + 2 + 16 + 8);
    let back = Envelope::decode(&bytes).unwrap();
    assert_eq!(back.kind, env.kind);
    assert_eq!(back.version, env.version);
    assert_eq!(back.header, env.header);
    assert_eq!(back.metadata, env.metadata);
    assert_eq!(back.content, env.content);
}

#[test]
fn errors_describe_themselves() {
    assert_eq!(FsError::TypeMismatch.describe(), "node type mismatch");
    assert_eq!(FsError::AuthenticationFailure.describe(), "authentication failed");
}

#[test]
fn equal_sources_give_equal_files() {
    let mut a = source(77);
    let mut b = source(77);
    let f = PrivateFile::new(Namefilter::empty(), TIME, vec![1, 2], &mut a);
    let g = PrivateFile::new(Namefilter::empty(), TIME, vec![1, 2], &mut b);
    assert_same_file(&f, &g);
    assert_eq!(a.counter, b.counter);
    assert_eq!(a.counter, 2);
    let x = f.serialize(&mut a).unwrap();
    let y = g.serialize(&mut b).unwrap();
    assert_eq!(x, y);
    assert_eq!(a.counter, 3);
}

#[test]
fn header_is_made_of_the_drawn_bytes() {
    let mut rng = source(200);
    let mut expected = rng.clone();
    let f = PrivateFile::new(Namefilter::empty(), TIME, vec![], &mut rng);
    assert_eq!(f.header.inumber, expected.random_bytes(32));
    assert_eq!(f.header.ratchet.state, expected.random_bytes(32));
    let bytes = f.serialize(&mut rng).unwrap();
    assert_eq!(bytes[HEADER_AT..HEADER_AT + 12].to_vec(), expected.random_bytes(12));
}

#[test]
fn seeded_source_is_the_digest_stream() {
    let mut rng = SeededRng::new(vec![1, 2, 3]);
    let first = rng.random_bytes(40);
    assert_eq!(first.len(), 40);
    assert_eq!(rng.counter, 1);
    let mut input = vec![1u8, 2, 3];
    input.extend_from_slice(&0u64.to_le_bytes());
    input.extend_from_slice(&0u64.to_le_bytes());
    assert_eq!(first[..32].to_vec(), sha3::Sha3_256::digest(&input).to_vec());
    let mut input = vec![1u8, 2, 3];
    input.extend_from_slice(&0u64.to_le_bytes());
    input.extend_from_slice(&1u64.to_le_bytes());
    assert_eq!(first[32..].to_vec(), sha3::Sha3_256::digest(&input)[..8].to_vec());
    let second = rng.random_bytes(40);
    assert_ne!(first, second);
    assert_eq!(rng.random_bytes(0), Vec::<u8>::new());
}

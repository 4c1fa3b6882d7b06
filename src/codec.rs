//! A canonical byte encoding: integers as eight little-endian bytes and byte
//! strings as their length followed by their bytes.

use vstd::prelude::*;

verus! {

/// The eight little-endian bytes of `x`.
pub open spec fn le_bytes(x: u64) -> Seq<u8> {
    seq![
        x as u8,
        (x >> 8u64) as u8,
        (x >> 16u64) as u8,
        (x >> 24u64) as u8,
        (x >> 32u64) as u8,
        (x >> 40u64) as u8,
        (x >> 48u64) as u8,
        (x >> 56u64) as u8,
    ]
}

/// The integer whose little-endian bytes are the first eight of `s`.
pub open spec fn le_value(s: Seq<u8>) -> u64 {
    (s[0] as u64) | ((s[1] as u64) << 8u64) | ((s[2] as u64) << 16u64) | ((s[3] as u64)
        << 24u64) | ((s[4] as u64) << 32u64) | ((s[5] as u64) << 40u64) | ((s[6] as u64)
        << 48u64) | ((s[7] as u64) << 56u64)
}

/// A byte string as a field: its length, then its bytes.
pub open spec fn field(s: Seq<u8>) -> Seq<u8> {
    le_bytes(s.len() as u64) + s
}

/// Reads an integer at `pos`: the value and the position after it.
#[verifier::opaque]
pub open spec fn take_u64(s: Seq<u8>, pos: int) -> Option<(u64, int)> {
    if 0 <= pos && pos + 8 <= s.len() {
        Some((le_value(s.subrange(pos, pos + 8)), pos + 8))
    } else {
        None
    }
}

/// Reads a field at `pos`: its bytes and the position after it.
#[verifier::opaque]
pub open spec fn take_field(s: Seq<u8>, pos: int) -> Option<(Seq<u8>, int)> {
    match take_u64(s, pos) {
        Some((n, p)) => if p + n <= s.len() {
            Some((s.subrange(p, p + n), p + n))
        } else {
            None
        },
        None => None,
    }
}

proof fn lemma_le_value_of_bytes(x: u64)
    ensures
        le_value(le_bytes(x)) == x,
{
    let b0 = x as u8;
    let b1 = (x >> 8u64) as u8;
    let b2 = (x >> 16u64) as u8;
    let b3 = (x >> 24u64) as u8;
    let b4 = (x >> 32u64) as u8;
    let b5 = (x >> 40u64) as u8;
    let b6 = (x >> 48u64) as u8;
    let b7 = (x >> 56u64) as u8;
    assert(x == (b0 as u64) | ((b1 as u64) << 8u64) | ((b2 as u64) << 16u64) | ((b3 as u64)
        << 24u64) | ((b4 as u64) << 32u64) | ((b5 as u64) << 40u64) | ((b6 as u64) << 48u64)
        | ((b7 as u64) << 56u64)) by (bit_vector)
        requires
            b0 == x as u8,
            b1 == (x >> 8u64) as u8,
            b2 == (x >> 16u64) as u8,
            b3 == (x >> 24u64) as u8,
            b4 == (x >> 32u64) as u8,
            b5 == (x >> 40u64) as u8,
            b6 == (x >> 48u64) as u8,
            b7 == (x >> 56u64) as u8,
    ;
}

/// An integer written at `a.len()` reads back.
pub proof fn lemma_take_u64(a: Seq<u8>, x: u64, b: Seq<u8>)
    ensures
        take_u64(a + le_bytes(x) + b, a.len() as int) == Some((x, a.len() + 8int)),
{
    reveal(take_u64);
    let s = a + le_bytes(x) + b;
    assert(s.subrange(a.len() as int, a.len() + 8int) =~= le_bytes(x));
    lemma_le_value_of_bytes(x);
}

/// A field written at `a.len()` reads back.
pub proof fn lemma_take_field(a: Seq<u8>, x: Seq<u8>, b: Seq<u8>)
    requires
        x.len() <= u64::MAX,
    ensures
        take_field(a + field(x) + b, a.len() as int) == Some((x, a.len() + 8int + x.len())),
{
    reveal(take_field);
    let s = a + field(x) + b;
    assert(s =~= a + le_bytes(x.len() as u64) + (x + b));
    lemma_take_u64(a, x.len() as u64, x + b);
    assert(s.subrange(a.len() + 8int, a.len() + 8int + x.len()) =~= x);
}

/// Appends the little-endian bytes of `x`.
pub fn write_u64(out: &mut Vec<u8>, x: u64)
    ensures
        final(out)@ == old(out)@ + le_bytes(x),
{
    out.push(x as u8);
    out.push((x >> 8u64) as u8);
    out.push((x >> 16u64) as u8);
    out.push((x >> 24u64) as u8);
    out.push((x >> 32u64) as u8);
    out.push((x >> 40u64) as u8);
    out.push((x >> 48u64) as u8);
    out.push((x >> 56u64) as u8);
    assert(final(out)@ =~= old(out)@ + le_bytes(x));
}

/// Appends `s` as a field.
pub fn write_field(out: &mut Vec<u8>, s: &Vec<u8>)
    ensures
        final(out)@ == old(out)@ + field(s@),
{
    write_u64(out, s.len() as u64);
    let mut i: usize = 0;
    while i < s.len()
        invariant
            i <= s@.len(),
            out@ == old(out)@ + le_bytes(s@.len() as u64) + s@.subrange(0, i as int),
        decreases s@.len() - i,
    {
        out.push(s[i]);
        i = i + 1;
        assert(out@ =~= old(out)@ + le_bytes(s@.len() as u64) + s@.subrange(0, i as int));
    }
    assert(s@.subrange(0, s@.len() as int) =~= s@);
    assert(out@ =~= old(out)@ + field(s@));
}

/// Reads an integer at `pos`.
pub fn read_u64(s: &Vec<u8>, pos: usize) -> (r: Option<(u64, usize)>)
    ensures
        match r {
            Some((x, p)) => take_u64(s@, pos as int) == Some((x, p as int)),
            None => take_u64(s@, pos as int) is None,
        },
{
    reveal(take_u64);
    if pos > s.len() || s.len() - pos < 8 {
        return None;
    }
    let x = (s[pos] as u64) | ((s[pos + 1] as u64) << 8u64) | ((s[pos + 2] as u64) << 16u64)
        | ((s[pos + 3] as u64) << 24u64) | ((s[pos + 4] as u64) << 32u64) | ((s[pos + 5] as u64)
        << 40u64) | ((s[pos + 6] as u64) << 48u64) | ((s[pos + 7] as u64) << 56u64);
    let ghost w = s@.subrange(pos as int, pos + 8);
    assert(w[0] == s@[pos as int] && w[1] == s@[pos + 1] && w[2] == s@[pos + 2] && w[3] == s@[pos
        + 3] && w[4] == s@[pos + 4] && w[5] == s@[pos + 5] && w[6] == s@[pos + 6] && w[7]
        == s@[pos + 7]);
    Some((x, pos + 8))
}

/// The bytes of `s` from `start` up to `end`.
pub fn copy_range(s: &Vec<u8>, start: usize, end: usize) -> (r: Vec<u8>)
    requires
        start <= end <= s@.len(),
    ensures
        r@ == s@.subrange(start as int, end as int),
{
    let mut x: Vec<u8> = Vec::new();
    let mut i: usize = start;
    while i < end
        invariant
            start <= i <= end <= s@.len(),
            x@ == s@.subrange(start as int, i as int),
        decreases end - i,
    {
        x.push(s[i]);
        i = i + 1;
        assert(x@ =~= s@.subrange(start as int, i as int));
    }
    x
}

/// Reads a field at `pos`.
pub fn read_field(s: &Vec<u8>, pos: usize) -> (r: Option<(Vec<u8>, usize)>)
    ensures
        match r {
            Some((x, p)) => take_field(s@, pos as int) == Some((x@, p as int)),
            None => take_field(s@, pos as int) is None,
        },
{
    reveal(take_field);
    reveal(take_u64);
    let (n, start) = match read_u64(s, pos) {
        Some(v) => v,
        None => return None,
    };
    if n > (s.len() - start) as u64 {
        return None;
    }
    let end = start + n as usize;
    let x = copy_range(s, start, end);
    Some((x, end))
}

} // verus!

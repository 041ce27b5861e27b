//! Big-endian integers on the wire.

use vstd::prelude::*;

verus! {

/// The 16-bit value whose big-endian form is `hi, lo`.
pub open spec fn be16(hi: u8, lo: u8) -> u16 {
    ((hi as u16) << 8) | (lo as u16)
}

/// The 64-bit value whose big-endian form is the eight bytes given, first byte
/// most significant.
pub open spec fn be64(b0: u8, b1: u8, b2: u8, b3: u8, b4: u8, b5: u8, b6: u8, b7: u8) -> u64 {
    ((b0 as u64) << 56) | ((b1 as u64) << 48) | ((b2 as u64) << 40) | ((b3 as u64) << 32)
        | ((b4 as u64) << 24) | ((b5 as u64) << 16) | ((b6 as u64) << 8) | (b7 as u64)
}

/// Byte `i` (0 is the most significant) of the big-endian form of `v`.
pub open spec fn byte_of(v: u64, i: int) -> u8 {
    ((v >> ((56 - 8 * i) as u64)) & 0xff) as u8
}

/// The big-endian value of the eight bytes of `s` that start at `at`.
pub open spec fn be64_at(s: Seq<u8>, at: int) -> u64 {
    be64(s[at], s[at + 1], s[at + 2], s[at + 3], s[at + 4], s[at + 5], s[at + 6], s[at + 7])
}

/// The eight bytes of the big-endian form of `v`.
pub open spec fn be64_bytes(v: u64) -> Seq<u8> {
    seq![
        byte_of(v, 0), byte_of(v, 1), byte_of(v, 2), byte_of(v, 3),
        byte_of(v, 4), byte_of(v, 5), byte_of(v, 6), byte_of(v, 7),
    ]
}

/// The big-endian form of a 64-bit value spells that value.
pub proof fn lemma_be64_of_bytes(v: u64)
    ensures
        be64_at(be64_bytes(v), 0) == v,
{
    let b0 = byte_of(v, 0);
    let b1 = byte_of(v, 1);
    let b2 = byte_of(v, 2);
    let b3 = byte_of(v, 3);
    let b4 = byte_of(v, 4);
    let b5 = byte_of(v, 5);
    let b6 = byte_of(v, 6);
    let b7 = byte_of(v, 7);
    assert(be64(b0, b1, b2, b3, b4, b5, b6, b7) == v) by (bit_vector)
        requires
            b0 == ((v >> 56u64) & 0xff) as u8,
            b1 == ((v >> 48u64) & 0xff) as u8,
            b2 == ((v >> 40u64) & 0xff) as u8,
            b3 == ((v >> 32u64) & 0xff) as u8,
            b4 == ((v >> 24u64) & 0xff) as u8,
            b5 == ((v >> 16u64) & 0xff) as u8,
            b6 == ((v >> 8u64) & 0xff) as u8,
            b7 == ((v >> 0u64) & 0xff) as u8,
    ;
}

/// The value that eight bytes spell has those bytes as its big-endian form.
pub proof fn lemma_bytes_of_be64(b0: u8, b1: u8, b2: u8, b3: u8, b4: u8, b5: u8, b6: u8, b7: u8)
    ensures
        be64_bytes(be64(b0, b1, b2, b3, b4, b5, b6, b7)) == seq![b0, b1, b2, b3, b4, b5, b6, b7],
{
    let v = be64(b0, b1, b2, b3, b4, b5, b6, b7);
    assert(((v >> 56u64) & 0xff) as u8 == b0 && ((v >> 48u64) & 0xff) as u8 == b1
        && ((v >> 40u64) & 0xff) as u8 == b2 && ((v >> 32u64) & 0xff) as u8 == b3
        && ((v >> 24u64) & 0xff) as u8 == b4 && ((v >> 16u64) & 0xff) as u8 == b5
        && ((v >> 8u64) & 0xff) as u8 == b6 && ((v >> 0u64) & 0xff) as u8 == b7) by (bit_vector)
        requires
            v == ((b0 as u64) << 56) | ((b1 as u64) << 48) | ((b2 as u64) << 40) | ((b3 as u64) << 32)
                | ((b4 as u64) << 24) | ((b5 as u64) << 16) | ((b6 as u64) << 8) | (b7 as u64),
    ;
    assert(be64_bytes(v) =~= seq![b0, b1, b2, b3, b4, b5, b6, b7]);
}

/// Reads eight bytes of `buf` from `at` as a big-endian integer.
pub(crate) fn read_be64(buf: &[u8], at: usize) -> (v: u64)
    requires
        at + 8 <= buf@.len(),
    ensures
        v == be64_at(buf@, at as int),
{
    ((buf[at] as u64) << 56) | ((buf[at + 1] as u64) << 48) | ((buf[at + 2] as u64) << 40)
        | ((buf[at + 3] as u64) << 32) | ((buf[at + 4] as u64) << 24) | ((buf[at + 5] as u64) << 16)
        | ((buf[at + 6] as u64) << 8) | (buf[at + 7] as u64)
}

/// Appends the big-endian form of `v` to `out`.
pub(crate) fn push_be64(out: &mut Vec<u8>, v: u64)
    ensures
        final(out)@ == old(out)@ + be64_bytes(v),
{
    let ghost before = out@;
    let mut i: u32 = 0;
    while i < 8
        invariant
            i <= 8,
            out@.len() == before.len() + i,
            out@ =~= before + be64_bytes(v).subrange(0, i as int),
        decreases 8 - i,
    {
        let shift: u64 = 56 - 8 * (i as u64);
        let b: u64 = (v >> shift) & 0xff;
        assert(b <= 0xff) by (bit_vector)
            requires
                b == (v >> shift) & 0xff,
        ;
        out.push(b as u8);
        i += 1;
    }
    assert(be64_bytes(v).subrange(0, 8) =~= be64_bytes(v));
}


/// High byte of a 16-bit value.
pub open spec fn hi8(v: u16) -> u8 {
    (v >> 8) as u8
}

/// Low byte of a 16-bit value.
pub open spec fn lo8(v: u16) -> u8 {
    (v & 0xff) as u8
}

/// The two bytes of the big-endian form of `v`.
pub open spec fn be16_bytes(v: u16) -> Seq<u8> {
    seq![hi8(v), lo8(v)]
}

/// The big-endian value of the two bytes of `s` that start at `at`.
pub open spec fn be16_at(s: Seq<u8>, at: int) -> u16 {
    be16(s[at], s[at + 1])
}

/// The big-endian form of a 16-bit value spells that value.
pub proof fn lemma_be16_of_bytes(v: u16)
    ensures
        be16_at(be16_bytes(v), 0) == v,
{
    assert(be16(hi8(v), lo8(v)) == v) by (bit_vector);
}

/// The value that two bytes spell has those bytes as its big-endian form.
pub proof fn lemma_bytes_of_be16(hi: u8, lo: u8)
    ensures
        be16_bytes(be16(hi, lo)) == seq![hi, lo],
{
    assert(hi8(be16(hi, lo)) == hi) by (bit_vector);
    assert(lo8(be16(hi, lo)) == lo) by (bit_vector);
    assert(be16_bytes(be16(hi, lo)) =~= seq![hi, lo]);
}

/// Reads two bytes of `buf` from `at` as a big-endian integer.
pub(crate) fn read_be16(buf: &[u8], at: usize) -> (v: u16)
    requires
        at + 2 <= buf@.len(),
    ensures
        v == be16_at(buf@, at as int),
{
    ((buf[at] as u16) << 8) | (buf[at + 1] as u16)
}

/// Appends the big-endian form of `v` to `out`.
pub(crate) fn push_be16(out: &mut Vec<u8>, v: u16)
    ensures
        final(out)@ == old(out)@ + be16_bytes(v),
{
    let ghost before = out@;
    let hi: u16 = v >> 8;
    let lo: u16 = v & 0xff;
    assert(hi <= 0xff && lo <= 0xff) by (bit_vector)
        requires
            hi == v >> 8,
            lo == v & 0xff,
    ;
    out.push(hi as u8);
    out.push(lo as u8);
    assert(out@ =~= before + be16_bytes(v));
}

/// A copy of `buf` from index `from` to its end.
pub(crate) fn copy_from(buf: &[u8], from: usize) -> (out: Vec<u8>)
    requires
        from <= buf@.len(),
    ensures
        out@ == buf@.skip(from as int),
{
    let mut out: Vec<u8> = Vec::new();
    let mut i: usize = from;
    while i < buf.len()
        invariant
            from <= i <= buf@.len(),
            out@ =~= buf@.subrange(from as int, i as int),
        decreases buf@.len() - i,
    {
        out.push(buf[i]);
        i += 1;
    }
    assert(out@ =~= buf@.skip(from as int));
    out
}

/// Appends a copy of `src` to `out`.
pub(crate) fn push_all(out: &mut Vec<u8>, src: &[u8])
    ensures
        final(out)@ == old(out)@ + src@,
{
    let ghost before = out@;
    let mut i: usize = 0;
    while i < src.len()
        invariant
            i <= src@.len(),
            out@ =~= before + src@.subrange(0, i as int),
        decreases src@.len() - i,
    {
        out.push(src[i]);
        i += 1;
    }
    assert(src@.subrange(0, src@.len() as int) =~= src@);
}


/// The low sixteen bits of a length, as a header carries it.
pub open spec fn len16(n: nat) -> u16 {
    (n % 0x1_0000) as u16
}

/// The low sixteen bits of `n`.
pub(crate) fn length16(n: usize) -> (r: u16)
    ensures
        r == len16(n as nat),
{
    (n % 0x1_0000) as u16
}


/// A machine index as a mathematical integer.
pub open spec fn idx(i: usize) -> int {
    i as int
}



/// A lifetime of a packet, in seconds, as the tables take it.
pub(crate) fn seconds_of(ttl: u8) -> (s: u64)
    ensures
        s == ttl,
{
    ttl as u64
}


/// Whether `x` occurs in `v`.
pub(crate) fn contains_u64(v: &Vec<u64>, x: u64) -> (found: bool)
    ensures
        found == v@.contains(x),
{
    let mut i: usize = 0;
    while i < v.len()
        invariant
            i <= v@.len(),
            forall|j: int| 0 <= j < i ==> v@[j] != x,
        decreases v@.len() - i,
    {
        if v[i] == x {
            return true;
        }
        i += 1;
    }
    false
}

/// A copy of `buf` from index `from` up to index `to`.
pub(crate) fn copy_range(buf: &[u8], from: usize, to: usize) -> (out: Vec<u8>)
    requires
        from <= to <= buf@.len(),
    ensures
        out@ == buf@.subrange(from as int, to as int),
{
    let mut out: Vec<u8> = Vec::new();
    let mut i: usize = from;
    while i < to
        invariant
            from <= i <= to <= buf@.len(),
            out@ =~= buf@.subrange(from as int, i as int),
        decreases to - i,
    {
        out.push(buf[i]);
        i += 1;
    }
    out
}

} // verus!

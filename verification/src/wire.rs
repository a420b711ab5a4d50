//! Byte-level building blocks of the wire format: big-endian 16-bit fields
//! and copying between slices, vectors and fixed-length identifiers.

use vstd::prelude::*;

verus! {

/// Largest number a 16-bit field can declare.
pub const FIELD_MAX: usize = 0xffff;

/// The two bytes that stand for `n` in a big-endian 16-bit field.
pub open spec fn be16(n: nat) -> Seq<u8> {
    seq![(n / 256) as u8, (n % 256) as u8]
}

/// The number that a big-endian 16-bit field holds.
pub open spec fn be16_value(hi: u8, lo: u8) -> nat {
    (hi as nat) * 256 + (lo as nat)
}

/// The number held by the 16-bit field that starts at `at`.
pub open spec fn field_at(bytes: Seq<u8>, at: int) -> nat
    recommends
        0 <= at,
        at + 2 <= bytes.len(),
{
    be16_value(bytes[at], bytes[at + 1])
}

/// Reading a 16-bit field gives back the number written into it.
pub proof fn lemma_be16_round_trip(n: nat)
    requires
        n <= 0xffff,
    ensures
        be16(n).len() == 2,
        be16_value(be16(n)[0], be16(n)[1]) == n,
{
}

/// Writing the number read from a 16-bit field gives back the field.
pub proof fn lemma_be16_canonical(hi: u8, lo: u8)
    ensures
        be16_value(hi, lo) <= 0xffff,
        be16(be16_value(hi, lo)) == seq![hi, lo],
{
    assert(be16(be16_value(hi, lo)) =~= seq![hi, lo]);
}

/// Appends `n` as a big-endian 16-bit field.
pub fn push_be16(out: &mut Vec<u8>, n: u16)
    ensures
        final(out)@ == old(out)@ + be16(n as nat),
{
    let hi: u8 = (n / 256) as u8;
    let lo: u8 = (n % 256) as u8;
    out.push(hi);
    out.push(lo);
    assert(out@ =~= old(out)@ + be16(n as nat));
}

/// Reads the big-endian 16-bit field that starts at `at`.
pub fn read_be16(bytes: &[u8], at: usize) -> (n: u16)
    requires
        at + 2 <= bytes@.len(),
    ensures
        n as nat == field_at(bytes@, at as int),
{
    let hi: u16 = bytes[at] as u16;
    let lo: u16 = bytes[at + 1] as u16;
    hi * 256 + lo
}

/// Appends every byte of `bytes`, in order.
pub fn push_bytes(out: &mut Vec<u8>, bytes: &[u8])
    ensures
        final(out)@ == old(out)@ + bytes@,
{
    let mut i: usize = 0;
    while i < bytes.len()
        invariant
            i <= bytes@.len(),
            out@ == old(out)@ + bytes@.subrange(0, i as int),
        decreases bytes@.len() - i,
    {
        out.push(bytes[i]);
        i += 1;
        assert(out@ =~= old(out)@ + bytes@.subrange(0, i as int));
    }
    assert(bytes@.subrange(0, i as int) =~= bytes@);
}

/// Copies the bytes from `from` up to `to` into a vector of their own.
pub fn copy_range(bytes: &[u8], from: usize, to: usize) -> (out: Vec<u8>)
    requires
        from <= to <= bytes@.len(),
    ensures
        out@ == bytes@.subrange(from as int, to as int),
{
    let mut out: Vec<u8> = Vec::new();
    let mut i: usize = from;
    while i < to
        invariant
            from <= i <= to <= bytes@.len(),
            out@ == bytes@.subrange(from as int, i as int),
        decreases to - i,
    {
        out.push(bytes[i]);
        i += 1;
        assert(out@ =~= bytes@.subrange(from as int, i as int));
    }
    out
}

/// Copies the 32 bytes that start at `from` into a fixed-length identifier.
pub fn read_identifier(bytes: &[u8], from: usize) -> (out: [u8; 32])
    requires
        from + 32 <= bytes@.len(),
    ensures
        out@ == bytes@.subrange(from as int, from + 32),
{
    let len: usize = bytes.len();
    let mut out: [u8; 32] = [0u8; 32];
    let mut i: usize = 0;
    while i < 32
        invariant
            i <= 32,
            from + 32 <= len == bytes@.len(),
            forall|j: int| 0 <= j < i ==> out@[j] == bytes@[from + j],
        decreases 32 - i,
    {
        out[i] = bytes[from + i];
        i += 1;
    }
    assert(out@ =~= bytes@.subrange(from as int, from + 32));
    out
}

} // verus!

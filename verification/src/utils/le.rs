//! Little-endian encoding of integers into byte buffers.

use vstd::prelude::*;

verus! {

/// The two bytes of `x` (below 2^16), least significant first.
pub closed spec fn le16(x: nat) -> Seq<u8> {
    seq![(x % 256) as u8, (x / 256 % 256) as u8]
}

/// The four bytes of `x` (below 2^32), least significant first.
pub closed spec fn le32(x: nat) -> Seq<u8> {
    seq![
        (x % 256) as u8,
        (x / 0x100 % 256) as u8,
        (x / 0x10000 % 256) as u8,
        (x / 0x1000000 % 256) as u8,
    ]
}

/// The eight bytes of `x` (below 2^64), least significant first.
pub closed spec fn le64(x: nat) -> Seq<u8> {
    le32(x % 0x1_0000_0000) + le32(x / 0x1_0000_0000)
}

/// `le16` writes two bytes.
pub broadcast proof fn lemma_le16_len(x: nat)
    ensures
        #[trigger] le16(x).len() == 2,
{
}

/// `le32` writes four bytes.
pub broadcast proof fn lemma_le32_len(x: nat)
    ensures
        #[trigger] le32(x).len() == 4,
{
}

/// `le64` writes eight bytes.
pub broadcast proof fn lemma_le64_len(x: nat)
    ensures
        #[trigger] le64(x).len() == 8,
{
}

/// The byte counts of the little-endian encodings.
pub broadcast group group_le_lengths {
    lemma_le16_len,
    lemma_le32_len,
    lemma_le64_len,
}

/// The bytes of `le16`, spelled out.
pub proof fn lemma_le16_bytes(x: nat)
    ensures
        le16(x) == seq![(x % 256) as u8, (x / 256 % 256) as u8],
{
}

/// The bytes of `le32`, spelled out.
pub proof fn lemma_le32_bytes(x: nat)
    ensures
        le32(x) == seq![
            (x % 256) as u8,
            (x / 0x100 % 256) as u8,
            (x / 0x10000 % 256) as u8,
            (x / 0x1000000 % 256) as u8,
        ],
{
}

/// The bytes of `le64` are those of its low and high 32-bit halves.
pub proof fn lemma_le64_halves(x: nat)
    ensures
        le64(x) == le32(x % 0x1_0000_0000) + le32(x / 0x1_0000_0000),
{
}

/// The value that little-endian bytes spell.
pub open spec fn le_value(b: Seq<u8>) -> nat
    decreases b.len(),
{
    if b.len() == 0 {
        0
    } else {
        b[0] as nat + 256 * le_value(b.drop_first())
    }
}

/// Reading back what `le32` wrote gives the value.
pub proof fn lemma_le32_value(x: nat)
    requires
        x < 0x1_0000_0000,
    ensures
        le_value(le32(x)) == x,
{
    let b = le32(x);
    reveal_with_fuel(le_value, 5);
    assert(b.drop_first().drop_first().drop_first().drop_first() =~= Seq::<u8>::empty());
    assert(b.drop_first().drop_first().drop_first() =~= seq![(x / 0x1000000 % 256) as u8]);
    assert(b.drop_first().drop_first() =~= seq![(x / 0x10000 % 256) as u8, (x / 0x1000000 % 256) as u8]);
    assert(b.drop_first() =~= seq![(x / 0x100 % 256) as u8, (x / 0x10000 % 256) as u8, (x / 0x1000000 % 256) as u8]);
    assert((x % 256) + 256 * ((x / 0x100 % 256) + 256 * ((x / 0x10000 % 256) + 256 * (x / 0x1000000 % 256))) == x) by (nonlinear_arith)
        requires x < 0x1_0000_0000;
}

/// Appends the little-endian bytes of a 16-bit value.
pub fn push_le16(out: &mut Vec<u8>, x: u16)
    ensures
        final(out)@ == old(out)@ + le16(x as nat),
{
    out.push((x % 256) as u8);
    out.push((x / 256 % 256) as u8);
    assert(final(out)@ =~= old(out)@ + le16(x as nat));
}

/// Appends the little-endian bytes of a 32-bit value.
pub fn push_le32(out: &mut Vec<u8>, x: u32)
    ensures
        final(out)@ == old(out)@ + le32(x as nat),
{
    out.push((x % 256) as u8);
    out.push((x / 0x100 % 256) as u8);
    out.push((x / 0x10000 % 256) as u8);
    out.push((x / 0x1000000 % 256) as u8);
    assert(final(out)@ =~= old(out)@ + le32(x as nat));
}

/// Appends the little-endian bytes of a 64-bit value.
pub fn push_le64(out: &mut Vec<u8>, x: u64)
    ensures
        final(out)@ == old(out)@ + le64(x as nat),
{
    push_le32(out, (x % 0x1_0000_0000) as u32);
    push_le32(out, (x / 0x1_0000_0000) as u32);
    assert(final(out)@ =~= old(out)@ + le64(x as nat));
}

/// Appends a byte slice.
pub fn push_bytes(out: &mut Vec<u8>, bytes: &[u8])
    ensures
        final(out)@ == old(out)@ + bytes@,
{
    let mut i: usize = 0;
    while i < bytes.len()
        invariant
            i <= bytes.len(),
            out@ == old(out)@ + bytes@.subrange(0, i as int),
        decreases bytes.len() - i,
    {
        out.push(bytes[i]);
        i = i + 1;
        assert(out@ =~= old(out)@ + bytes@.subrange(0, i as int));
    }
    assert(bytes@.subrange(0, bytes.len() as int) =~= bytes@);
}

/// Appends `n` zero bytes.
pub fn push_zeros(out: &mut Vec<u8>, n: usize)
    ensures
        final(out)@ == old(out)@ + Seq::new(n as nat, |_i: int| 0u8),
{
    let mut i: usize = 0;
    while i < n
        invariant
            i <= n,
            out@ == old(out)@ + Seq::new(i as nat, |_i: int| 0u8),
        decreases n - i,
    {
        out.push(0);
        i = i + 1;
        assert(out@ =~= old(out)@ + Seq::new(i as nat, |_i: int| 0u8));
    }
}

} // verus!

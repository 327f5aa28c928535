//! Fixed-width little-endian integers, the only primitive of the wire formats
//! in this crate.
//!
//! The model is two functions on mathematical values: [`le_value`] reads a
//! byte sequence as a number, [`le_bytes`] writes a number as a byte sequence
//! of a given width. The executable readers and writers are proved against
//! them, and the two are proved to be inverses of each other.

use vstd::prelude::*;

verus! {

/// `256` raised to the power `n`: the number of values that `n` bytes can denote.
pub open spec fn pow256(n: nat) -> nat
    decreases n,
{
    if n == 0 {
        1
    } else {
        256 * pow256((n - 1) as nat)
    }
}

/// The number that `bytes` denotes, least-significant byte first.
pub open spec fn le_value(bytes: Seq<u8>) -> nat
    decreases bytes.len(),
{
    if bytes.len() == 0 {
        0
    } else {
        bytes[0] as nat + 256 * le_value(bytes.skip(1))
    }
}

/// The `width` bytes that denote `value`, least-significant byte first.
/// Digits of `value` beyond `width` are dropped.
pub open spec fn le_bytes(value: nat, width: nat) -> Seq<u8>
    decreases width,
{
    if width == 0 {
        Seq::empty()
    } else {
        seq![(value % 256) as u8] + le_bytes(value / 256, (width - 1) as nat)
    }
}

/// Four bytes denote exactly the `u32` values and eight bytes the `u64` values.
pub proof fn lemma_pow256_widths()
    ensures
        pow256(0) == 1,
        pow256(4) == 0x1_0000_0000,
        pow256(8) == 0x1_0000_0000_0000_0000,
{
    reveal_with_fuel(pow256, 9);
}

/// `pow256` grows with its exponent.
pub proof fn lemma_pow256_monotonic(a: nat, b: nat)
    requires
        a <= b,
    ensures
        1 <= pow256(a) <= pow256(b),
    decreases b,
{
    if a < b {
        lemma_pow256_monotonic(a, (b - 1) as nat);
    } else if b > 0 {
        lemma_pow256_monotonic((a - 1) as nat, (b - 1) as nat);
    }
}

/// An encoding has the width that was asked for.
pub proof fn lemma_le_bytes_len(value: nat, width: nat)
    ensures
        le_bytes(value, width).len() == width,
    decreases width,
{
    if width > 0 {
        lemma_le_bytes_len(value / 256, (width - 1) as nat);
    }
}

/// `n` bytes denote a number below `256^n`.
pub proof fn lemma_le_value_bound(bytes: Seq<u8>)
    ensures
        le_value(bytes) < pow256(bytes.len()),
    decreases bytes.len(),
{
    if bytes.len() > 0 {
        lemma_le_value_bound(bytes.skip(1));
    }
}

/// Reading what was written gives the number back, provided it fits the width.
pub proof fn lemma_le_value_of_le_bytes(value: nat, width: nat)
    requires
        value < pow256(width),
    ensures
        le_value(le_bytes(value, width)) == value,
    decreases width,
{
    if width > 0 {
        let rest = le_bytes(value / 256, (width - 1) as nat);
        let all = le_bytes(value, width);
        lemma_le_value_of_le_bytes(value / 256, (width - 1) as nat);
        assert(all.skip(1) =~= rest);
        assert(all[0] == (value % 256) as u8);
    }
}

/// Writing what was read gives the bytes back.
pub proof fn lemma_le_bytes_of_le_value(bytes: Seq<u8>)
    ensures
        le_bytes(le_value(bytes), bytes.len()) == bytes,
    decreases bytes.len(),
{
    if bytes.len() > 0 {
        let rest = bytes.skip(1);
        lemma_le_bytes_of_le_value(rest);
        let value = le_value(bytes);
        assert(value % 256 == bytes[0] as nat);
        assert(value / 256 == le_value(rest));
        assert(le_bytes(value, bytes.len()) =~= bytes);
    } else {
        assert(le_bytes(le_value(bytes), bytes.len()) =~= bytes);
    }
}

/// Reads the `width` bytes of `bytes` that start at `start` as one number.
pub(crate) fn read_le(bytes: &[u8], start: usize, width: usize) -> (value: u64)
    requires
        width <= 8,
        start + width <= bytes@.len(),
    ensures
        value as nat == le_value(bytes@.subrange(start as int, start + width)),
{
    let len: usize = bytes.len();
    let ghost end: int = start + width;
    let mut value: u64 = 0;
    let mut i: usize = width;
    while i > 0
        invariant
            i <= width <= 8,
            end == start + width,
            end <= len == bytes@.len(),
            value as nat == le_value(bytes@.subrange(start + i, end)),
            (value as nat) < pow256((width - i) as nat),
        decreases i,
    {
        i = i - 1;
        let byte: u8 = bytes[start + i];
        proof {
            let tail = bytes@.subrange(start + i, end);
            assert(tail.skip(1) =~= bytes@.subrange(start + i + 1, end));
            assert(tail[0] == byte);
            lemma_pow256_monotonic((width - i) as nat, 8);
            lemma_pow256_widths();
        }
        value = value * 256 + byte as u64;
    }
    value
}

/// Appends to `out` the `width` low-order bytes of `value`, least-significant first.
pub(crate) fn push_le(out: &mut Vec<u8>, value: u64, width: usize)
    requires
        width <= 8,
    ensures
        final(out)@ == old(out)@ + le_bytes(value as nat, width as nat),
{
    let mut rest: u64 = value;
    let mut i: usize = 0;
    let ghost written: Seq<u8> = Seq::empty();
    while i < width
        invariant
            i <= width,
            out@ == old(out)@ + written,
            written.len() == i,
            le_bytes(value as nat, width as nat) == written + le_bytes(
                rest as nat,
                (width - i) as nat,
            ),
        decreases width - i,
    {
        let byte: u8 = (rest % 256) as u8;
        out.push(byte);
        proof {
            let tail = le_bytes(rest as nat, (width - i) as nat);
            let next = le_bytes((rest / 256) as nat, (width - i - 1) as nat);
            assert(tail =~= seq![byte] + next);
            assert(written + tail =~= written.push(byte) + next);
            written = written.push(byte);
        }
        rest = rest / 256;
        i = i + 1;
    }
    proof {
        assert(le_bytes(rest as nat, 0) =~= Seq::<u8>::empty());
        assert(written + Seq::<u8>::empty() =~= written);
    }
}

/// Reads the four bytes at `start` as a `u32`.
pub(crate) fn read_u32_le(bytes: &[u8], start: usize) -> (value: u32)
    requires
        start + 4 <= bytes@.len(),
    ensures
        value as nat == le_value(bytes@.subrange(start as int, start + 4)),
{
    let wide: u64 = read_le(bytes, start, 4);
    proof {
        lemma_le_value_bound(bytes@.subrange(start as int, start + 4));
        lemma_pow256_widths();
    }
    wide as u32
}

/// Reads the eight bytes at `start` as a `u64`.
pub(crate) fn read_u64_le(bytes: &[u8], start: usize) -> (value: u64)
    requires
        start + 8 <= bytes@.len(),
    ensures
        value as nat == le_value(bytes@.subrange(start as int, start + 8)),
{
    read_le(bytes, start, 8)
}

/// Appends the four bytes of `value` to `out`.
pub(crate) fn push_u32_le(out: &mut Vec<u8>, value: u32)
    ensures
        final(out)@ == old(out)@ + le_bytes(value as nat, 4),
{
    push_le(out, value as u64, 4);
}

/// Appends the eight bytes of `value` to `out`.
pub(crate) fn push_u64_le(out: &mut Vec<u8>, value: u64)
    ensures
        final(out)@ == old(out)@ + le_bytes(value as nat, 8),
{
    push_le(out, value, 8);
}

/// Copies the 32 bytes at `start` into an array.
pub(crate) fn read_bytes32(bytes: &[u8], start: usize) -> (out: [u8; 32])
    requires
        start + 32 <= bytes@.len(),
    ensures
        out@ == bytes@.subrange(start as int, start + 32),
{
    let len: usize = bytes.len();
    let mut out: [u8; 32] = [0u8; 32];
    let mut i: usize = 0;
    while i < 32
        invariant
            i <= 32,
            start + 32 <= len == bytes@.len(),
            forall|k: int| 0 <= k < i ==> out@[k] == bytes@[start + k],
        decreases 32 - i,
    {
        out[i] = bytes[start + i];
        i = i + 1;
    }
    assert(out@ =~= bytes@.subrange(start as int, start + 32));
    out
}

/// Appends the 32 bytes of `block` to `out`.
pub(crate) fn push_bytes32(out: &mut Vec<u8>, block: &[u8; 32])
    ensures
        final(out)@ == old(out)@ + block@,
{
    let mut i: usize = 0;
    while i < 32
        invariant
            i <= 32,
            out@ == old(out)@ + block@.take(i as int),
        decreases 32 - i,
    {
        out.push(block[i]);
        assert(block@.take(i + 1) =~= block@.take(i as int).push(block@[i as int]));
        i = i + 1;
    }
    assert(block@.take(32) =~= block@);
}

} // verus!

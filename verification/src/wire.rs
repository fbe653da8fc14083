//! Fixed-width little-endian field primitives.
//!
//! Every scalar that appears in a LIFX payload has a fixed byte width and is
//! stored least-significant byte first.  The spec functions here define the
//! byte image of each scalar and how a scalar is read back out of a byte
//! sequence at a given offset; the exec functions append to or read from
//! real buffers and are proved to match those spec functions exactly.

use vstd::prelude::*;

verus! {

use vstd::bytes::lemma_auto_spec_u16_to_from_le_bytes;
use vstd::bytes::lemma_auto_spec_u32_to_from_le_bytes;
use vstd::bytes::lemma_auto_spec_u64_to_from_le_bytes;
use vstd::bytes::spec_u16_from_le_bytes;
use vstd::bytes::spec_u16_to_le_bytes;
use vstd::bytes::spec_u32_from_le_bytes;
use vstd::bytes::spec_u32_to_le_bytes;
use vstd::bytes::spec_u64_from_le_bytes;
use vstd::bytes::spec_u64_to_le_bytes;
use vstd::bytes::u16_from_le_bytes;
use vstd::bytes::u16_to_le_bytes;
use vstd::bytes::u32_from_le_bytes;
use vstd::bytes::u32_to_le_bytes;
use vstd::bytes::u64_from_le_bytes;
use vstd::bytes::u64_to_le_bytes;
use vstd::slice::slice_subrange;

/// Byte image of a `u8`: the byte itself.
pub open spec fn enc_u8(v: u8) -> Seq<u8> {
    seq![v]
}

/// Byte image of a `bool`: one byte, 0x00 for false and 0x01 for true.
pub open spec fn enc_bool(v: bool) -> Seq<u8> {
    seq![if v { 1u8 } else { 0u8 }]
}

/// Byte image of a `u16`, least-significant byte first.
pub open spec fn enc_u16(v: u16) -> Seq<u8> {
    spec_u16_to_le_bytes(v)
}

/// Byte image of an `i16`: its two's-complement bits as a `u16`.
pub open spec fn enc_i16(v: i16) -> Seq<u8> {
    spec_u16_to_le_bytes(v as u16)
}

/// Byte image of a `u32`, least-significant byte first.
pub open spec fn enc_u32(v: u32) -> Seq<u8> {
    spec_u32_to_le_bytes(v)
}

/// Byte image of a `u64`, least-significant byte first.
pub open spec fn enc_u64(v: u64) -> Seq<u8> {
    spec_u64_to_le_bytes(v)
}

/// The `u8` stored at offset `i` of `s`.
pub open spec fn dec_u8(s: Seq<u8>, i: int) -> u8 {
    s[i]
}

/// The `bool` stored at offset `i` of `s`.  Any nonzero byte reads as true,
/// matching how devices in the field report flags.
pub open spec fn dec_bool(s: Seq<u8>, i: int) -> bool {
    s[i] != 0
}

/// The `u16` stored little-endian at offset `i` of `s`.
pub open spec fn dec_u16(s: Seq<u8>, i: int) -> u16 {
    spec_u16_from_le_bytes(s.subrange(i, i + 2))
}

/// The `i16` stored little-endian at offset `i` of `s`.
pub open spec fn dec_i16(s: Seq<u8>, i: int) -> i16 {
    dec_u16(s, i) as i16
}

/// The `u32` stored little-endian at offset `i` of `s`.
pub open spec fn dec_u32(s: Seq<u8>, i: int) -> u32 {
    spec_u32_from_le_bytes(s.subrange(i, i + 4))
}

/// The `u64` stored little-endian at offset `i` of `s`.
pub open spec fn dec_u64(s: Seq<u8>, i: int) -> u64 {
    spec_u64_from_le_bytes(s.subrange(i, i + 8))
}

/// Appends the byte image of a `u8`.
pub fn put_u8(out: &mut Vec<u8>, v: u8)
    ensures
        final(out)@ == old(out)@ + enc_u8(v),
{
    out.push(v);
    proof {
        assert(out@ =~= old(out)@ + enc_u8(v));
    }
}

/// Appends the byte image of a `bool`.
pub fn put_bool(out: &mut Vec<u8>, v: bool)
    ensures
        final(out)@ == old(out)@ + enc_bool(v),
{
    out.push(if v { 1 } else { 0 });
    proof {
        assert(out@ =~= old(out)@ + enc_bool(v));
    }
}

/// Appends the byte image of a `u16`.
pub fn put_u16(out: &mut Vec<u8>, v: u16)
    ensures
        final(out)@ == old(out)@ + enc_u16(v),
{
    let mut b = u16_to_le_bytes(v);
    out.append(&mut b);
}

/// Appends the byte image of an `i16`.
pub fn put_i16(out: &mut Vec<u8>, v: i16)
    ensures
        final(out)@ == old(out)@ + enc_i16(v),
{
    put_u16(out, v as u16);
}

/// Appends the byte image of a `u32`.
pub fn put_u32(out: &mut Vec<u8>, v: u32)
    ensures
        final(out)@ == old(out)@ + enc_u32(v),
{
    let mut b = u32_to_le_bytes(v);
    out.append(&mut b);
}

/// Appends the byte image of a `u64`.
pub fn put_u64(out: &mut Vec<u8>, v: u64)
    ensures
        final(out)@ == old(out)@ + enc_u64(v),
{
    let mut b = u64_to_le_bytes(v);
    out.append(&mut b);
}

/// Reads the `u8` at offset `i`.
pub fn read_u8(s: &[u8], i: usize) -> (r: u8)
    requires
        i + 1 <= s@.len(),
    ensures
        r == dec_u8(s@, i as int),
{
    s[i]
}

/// Reads the `bool` at offset `i`.
pub fn read_bool(s: &[u8], i: usize) -> (r: bool)
    requires
        i + 1 <= s@.len(),
    ensures
        r == dec_bool(s@, i as int),
{
    s[i] != 0
}

/// Reads the `u16` stored little-endian at offset `i`.
pub fn read_u16(s: &[u8], i: usize) -> (r: u16)
    requires
        i + 2 <= s@.len(),
    ensures
        r == dec_u16(s@, i as int),
{
    let n: usize = s.len();
    u16_from_le_bytes(slice_subrange(s, i, i + 2))
}

/// Reads the `i16` stored little-endian at offset `i`.
pub fn read_i16(s: &[u8], i: usize) -> (r: i16)
    requires
        i + 2 <= s@.len(),
    ensures
        r == dec_i16(s@, i as int),
{
    read_u16(s, i) as i16
}

/// Reads the `u32` stored little-endian at offset `i`.
pub fn read_u32(s: &[u8], i: usize) -> (r: u32)
    requires
        i + 4 <= s@.len(),
    ensures
        r == dec_u32(s@, i as int),
{
    let n: usize = s.len();
    u32_from_le_bytes(slice_subrange(s, i, i + 4))
}

/// Reads the `u64` stored little-endian at offset `i`.
pub fn read_u64(s: &[u8], i: usize) -> (r: u64)
    requires
        i + 8 <= s@.len(),
    ensures
        r == dec_u64(s@, i as int),
{
    let n: usize = s.len();
    u64_from_le_bytes(slice_subrange(s, i, i + 8))
}

/// Appends every byte of a slice.
pub fn put_slice(out: &mut Vec<u8>, s: &[u8])
    ensures
        final(out)@ == old(out)@ + s@,
{
    let n: usize = s.len();
    let mut j: usize = 0;
    while j < n
        invariant
            j <= n,
            n == s@.len(),
            out@ == old(out)@ + s@.take(j as int),
        decreases n - j,
    {
        out.push(s[j]);
        proof {
            assert(out@ =~= old(out)@ + s@.take(j + 1));
        }
        j += 1;
    }
    proof {
        assert(old(out)@ + s@.take(n as int) =~= old(out)@ + s@);
    }
}

/// Reading back what was written recovers the value, for every scalar width.
pub proof fn lemma_scalar_round_trips()
    ensures
        forall|v: u8| #[trigger] enc_u8(v).len() == 1 && enc_u8(v)[0] == v,
        forall|v: bool| #[trigger] enc_bool(v).len() == 1 && (enc_bool(v)[0] != 0) == v,
        forall|v: u16| #[trigger] enc_u16(v).len() == 2 && spec_u16_from_le_bytes(enc_u16(v)) == v,
        forall|v: i16|
            #[trigger] enc_i16(v).len() == 2 && spec_u16_from_le_bytes(enc_i16(v)) == v as u16
                && spec_u16_from_le_bytes(enc_i16(v)) as i16 == v,
        forall|v: u32| #[trigger] enc_u32(v).len() == 4 && spec_u32_from_le_bytes(enc_u32(v)) == v,
        forall|v: u64| #[trigger] enc_u64(v).len() == 8 && spec_u64_from_le_bytes(enc_u64(v)) == v,
{
    lemma_auto_spec_u16_to_from_le_bytes();
    lemma_auto_spec_u32_to_from_le_bytes();
    lemma_auto_spec_u64_to_from_le_bytes();
    assert forall|v: i16| #[trigger] enc_i16(v).len() == 2 && spec_u16_from_le_bytes(enc_i16(v))
        == v as u16 && spec_u16_from_le_bytes(enc_i16(v)) as i16 == v by {
        let w = v as u16;
        assert(enc_i16(v) == spec_u16_to_le_bytes(w));
        assert(spec_u16_to_le_bytes(w).len() == 2);
        assert(spec_u16_from_le_bytes(spec_u16_to_le_bytes(w)) == w);
        assert(v as u16 as i16 == v) by (bit_vector);
    }
}

} // verus!

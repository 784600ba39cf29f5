//! Little-endian integer layouts and the base-128 varint used for register
//! addresses, together with the two's-complement value maps the codec needs.

use vstd::prelude::*;

verus! {

/// The two little-endian bytes of a 16-bit word.
pub open spec fn u16_le(w: u16) -> Seq<u8> {
    seq![(w % 256) as u8, (w / 256) as u8]
}

/// The four little-endian bytes of a 32-bit word.
pub open spec fn u32_le(w: u32) -> Seq<u8> {
    seq![
        (w % 256) as u8,
        ((w / 256) % 256) as u8,
        ((w / 65536) % 256) as u8,
        (w / 16777216) as u8,
    ]
}

/// The 16-bit word described by two little-endian bytes.
pub open spec fn u16_of_le(b0: u8, b1: u8) -> u16 {
    (b0 + b1 * 256) as u16
}

/// The 32-bit word described by four little-endian bytes.
pub open spec fn u32_of_le(b0: u8, b1: u8, b2: u8, b3: u8) -> u32 {
    (b0 + b1 * 256 + b2 * 65536 + b3 * 16777216) as u32
}

/// Two's-complement reading of an unsigned value `w` of width `2^bits`:
/// values at or above half the range stand for negatives.
pub open spec fn signed_of(w: int, half: int) -> int {
    if w >= half {
        w - 2 * half
    } else {
        w
    }
}

/// Two's-complement image of `v` in a range of size `2 * half`.
pub open spec fn unsigned_of(v: int, half: int) -> int {
    if v < 0 {
        v + 2 * half
    } else {
        v
    }
}

pub fn u16_le_bytes(w: u16) -> (r: Vec<u8>)
    ensures
        r@ == u16_le(w),
{
    let mut r: Vec<u8> = Vec::new();
    r.push((w % 256) as u8);
    r.push((w / 256) as u8);
    proof {
        assert(r@ =~= u16_le(w));
    }
    r
}

pub fn u32_le_bytes(w: u32) -> (r: Vec<u8>)
    ensures
        r@ == u32_le(w),
{
    let mut r: Vec<u8> = Vec::new();
    r.push((w % 256) as u8);
    r.push(((w / 256) % 256) as u8);
    r.push(((w / 65536) % 256) as u8);
    r.push((w / 16777216) as u8);
    proof {
        assert(r@ =~= u32_le(w));
    }
    r
}

pub fn u16_from_le(b0: u8, b1: u8) -> (w: u16)
    ensures
        w == u16_of_le(b0, b1),
        w == b0 + b1 * 256,
{
    b0 as u16 + b1 as u16 * 256
}

pub fn u32_from_le(b0: u8, b1: u8, b2: u8, b3: u8) -> (w: u32)
    ensures
        w == u32_of_le(b0, b1, b2, b3),
        w == b0 + b1 * 256 + b2 * 65536 + b3 * 16777216,
{
    b0 as u32 + b1 as u32 * 256 + b2 as u32 * 65536 + b3 as u32 * 16777216
}

/// Round trip: the little-endian bytes of a word read back as that word.
pub proof fn lemma_u16_le_round_trip(w: u16)
    ensures
        u16_of_le(u16_le(w)[0], u16_le(w)[1]) == w,
{
}

/// Round trip: the little-endian bytes of a word read back as that word.
pub proof fn lemma_u32_le_round_trip(w: u32)
    ensures
        u32_of_le(u32_le(w)[0], u32_le(w)[1], u32_le(w)[2], u32_le(w)[3]) == w,
{
}

/// Little-endian base-128 varint: seven data bits per byte, least
/// significant group first, high bit set on every byte but the last.
pub open spec fn varint(v: nat) -> Seq<u8>
    decreases v,
{
    if v < 128 {
        seq![v as u8]
    } else {
        seq![(128 + v % 128) as u8] + varint(v / 128)
    }
}

/// Appends the varint encoding of `val` to `buf`.
pub fn varint_push(buf: &mut Vec<u8>, val: u16)
    ensures
        final(buf)@ == old(buf)@ + varint(val as nat),
    decreases val,
{
    let low: u8 = (val % 128) as u8;
    let rest: u16 = val / 128;
    if rest == 0 {
        buf.push(low);
        proof {
            assert(buf@ =~= old(buf)@ + varint(val as nat));
        }
    } else {
        buf.push(low + 128);
        varint_push(buf, rest);
        proof {
            assert(buf@ =~= old(buf)@ + varint(val as nat));
        }
    }
}

/// The value and end position of a varint read from `b` at `pos`, or
/// `None` when the continuation bits run off the end of the buffer.
pub open spec fn varint_read_spec(b: Seq<u8>, pos: int) -> Option<(nat, int)>
    decreases b.len() - pos,
{
    if pos < 0 || pos >= b.len() {
        None
    } else if b[pos] < 128 {
        Some((b[pos] as nat, pos + 1))
    } else {
        match varint_read_spec(b, pos + 1) {
            None => None,
            Some((v, end)) => Some(((b[pos] - 128) as nat + 128 * v, end)),
        }
    }
}

} // verus!

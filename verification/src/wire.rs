//! The versioned wire codec shared by the two RPC endpoints.
//!
//! One request and one response cross the connection per call. Every
//! message starts with a protocol version byte and a message kind byte;
//! multi-byte integers are little-endian; sequences carry their element
//! count up front. `f64` values travel as their IEEE-754 bit patterns in
//! `u64`, which both endpoints convert losslessly.
//!
//! The byte-level meaning of each message is given by the spec decoders
//! ([`spec_decode_request`], [`spec_decode_response`]): the executable
//! decoders return exactly what they describe, and each encoder proves
//! that the bytes it produces decode back to its arguments.

use vstd::prelude::*;

use crate::status::rgpot_status_t;

verus! {

/// Protocol version carried in the first byte of every message.
pub const WIRE_VERSION: u8 = 1;

/// Message kind: a `calculate` request.
pub const KIND_CALCULATE: u8 = 1;

/// Message kind: a successful result.
pub const KIND_RESULT: u8 = 2;

/// Message kind: a failure report.
pub const KIND_FAILURE: u8 = 3;

/// The eight little-endian bytes of a `u64`.
pub open spec fn u64_le_bytes(x: u64) -> Seq<u8> {
    seq![
        x as u8,
        (x >> 8) as u8,
        (x >> 16) as u8,
        (x >> 24) as u8,
        (x >> 32) as u8,
        (x >> 40) as u8,
        (x >> 48) as u8,
        (x >> 56) as u8,
    ]
}

/// The four little-endian bytes of a `u32`.
pub open spec fn u32_le_bytes(x: u32) -> Seq<u8> {
    seq![x as u8, (x >> 8) as u8, (x >> 16) as u8, (x >> 24) as u8]
}

/// A `u64` recomposed from eight little-endian bytes.
pub open spec fn u64_from_bytes(
    b0: u8,
    b1: u8,
    b2: u8,
    b3: u8,
    b4: u8,
    b5: u8,
    b6: u8,
    b7: u8,
) -> u64 {
    (b0 as u64) | (b1 as u64) << 8 | (b2 as u64) << 16 | (b3 as u64) << 24 | (b4 as u64) << 32 | (
    b5 as u64) << 40 | (b6 as u64) << 48 | (b7 as u64) << 56
}

/// A `u32` recomposed from four little-endian bytes.
pub open spec fn u32_from_bytes(b0: u8, b1: u8, b2: u8, b3: u8) -> u32 {
    (b0 as u32) | (b1 as u32) << 8 | (b2 as u32) << 16 | (b3 as u32) << 24
}

/// The `u64` whose little-endian bytes sit at `off` in `b`.
pub open spec fn u64_at(b: Seq<u8>, off: int) -> u64 {
    u64_from_bytes(
        b[off],
        b[off + 1],
        b[off + 2],
        b[off + 3],
        b[off + 4],
        b[off + 5],
        b[off + 6],
        b[off + 7],
    )
}

/// The `u32` whose little-endian bytes sit at `off` in `b`.
pub open spec fn u32_at(b: Seq<u8>, off: int) -> u32 {
    u32_from_bytes(b[off], b[off + 1], b[off + 2], b[off + 3])
}

/// The two's-complement bit pattern of an `i32`, as a `u32`.
pub open spec fn i32_bits(x: i32) -> u32 {
    if x >= 0 {
        x as u32
    } else {
        (x + 0x1_0000_0000) as u32
    }
}

/// The `i32` whose two's-complement bit pattern is `b`.
pub open spec fn i32_of_bits(b: u32) -> i32 {
    if b < 0x8000_0000 {
        b as i32
    } else {
        (b - 0x1_0000_0000) as i32
    }
}

/// The `i32` whose little-endian bytes sit at `off` in `b`.
pub open spec fn i32_at(b: Seq<u8>, off: int) -> i32 {
    i32_of_bits(u32_at(b, off))
}

/// The run of `n` consecutive `u64` values starting at `off` in `b`.
pub open spec fn u64s_at(b: Seq<u8>, off: int, n: int) -> Seq<u64> {
    Seq::new(n as nat, |k: int| u64_at(b, off + 8 * k))
}

/// The run of `n` consecutive `i32` values starting at `off` in `b`.
pub open spec fn i32s_at(b: Seq<u8>, off: int, n: int) -> Seq<i32> {
    Seq::new(n as nat, |k: int| i32_at(b, off + 4 * k))
}

/// Recomposing the little-endian bytes of a `u64` gives it back.
pub proof fn lemma_u64_bytes_inverse(x: u64)
    ensures
        u64_from_bytes(
            x as u8,
            (x >> 8) as u8,
            (x >> 16) as u8,
            (x >> 24) as u8,
            (x >> 32) as u8,
            (x >> 40) as u8,
            (x >> 48) as u8,
            (x >> 56) as u8,
        ) == x,
{
    assert(((x as u8) as u64) | (((x >> 8) as u8) as u64) << 8 | (((x >> 16) as u8) as u64) << 16
        | (((x >> 24) as u8) as u64) << 24 | (((x >> 32) as u8) as u64) << 32 | (((x >> 40) as u8)
        as u64) << 40 | (((x >> 48) as u8) as u64) << 48 | (((x >> 56) as u8) as u64) << 56 == x)
        by (bit_vector);
}

/// Recomposing the little-endian bytes of a `u32` gives it back.
pub proof fn lemma_u32_bytes_inverse(x: u32)
    ensures
        u32_from_bytes(x as u8, (x >> 8) as u8, (x >> 16) as u8, (x >> 24) as u8) == x,
{
    assert(((x as u8) as u32) | (((x >> 8) as u8) as u32) << 8 | (((x >> 16) as u8) as u32) << 16
        | (((x >> 24) as u8) as u32) << 24 == x) by (bit_vector);
}

/// Carrying an `i32` through its `u32` bit pattern gives it back.
pub proof fn lemma_i32_bits_inverse(x: i32)
    ensures
        i32_of_bits(i32_bits(x)) == x,
{
}

/// The two's-complement bit pattern of an `i32`, as a `u32`.
pub fn i32_to_bits(x: i32) -> (b: u32)
    ensures
        b == i32_bits(x),
{
    if x >= 0 {
        x as u32
    } else {
        ((x as i64) + 0x1_0000_0000) as u32
    }
}

/// The `i32` whose two's-complement bit pattern is `b`.
pub fn bits_to_i32(b: u32) -> (x: i32)
    ensures
        x == i32_of_bits(b),
{
    if b < 0x8000_0000 {
        b as i32
    } else {
        ((b as i64) - 0x1_0000_0000) as i32
    }
}

/// Append the eight little-endian bytes of `x`.
pub fn encode_u64_le(x: u64, out: &mut Vec<u8>)
    ensures
        final(out)@ == old(out)@ + u64_le_bytes(x),
{
    out.push(#[verifier::truncate] (x as u8));
    out.push(#[verifier::truncate] ((x >> 8) as u8));
    out.push(#[verifier::truncate] ((x >> 16) as u8));
    out.push(#[verifier::truncate] ((x >> 24) as u8));
    out.push(#[verifier::truncate] ((x >> 32) as u8));
    out.push(#[verifier::truncate] ((x >> 40) as u8));
    out.push(#[verifier::truncate] ((x >> 48) as u8));
    out.push(#[verifier::truncate] ((x >> 56) as u8));
    proof {
        assert(out@ =~= old(out)@ + u64_le_bytes(x));
    }
}

/// Append the four little-endian bytes of `x`.
pub fn encode_u32_le(x: u32, out: &mut Vec<u8>)
    ensures
        final(out)@ == old(out)@ + u32_le_bytes(x),
{
    out.push(#[verifier::truncate] (x as u8));
    out.push(#[verifier::truncate] ((x >> 8) as u8));
    out.push(#[verifier::truncate] ((x >> 16) as u8));
    out.push(#[verifier::truncate] ((x >> 24) as u8));
    proof {
        assert(out@ =~= old(out)@ + u32_le_bytes(x));
    }
}

/// Read the `u64` at `off`.
pub fn decode_u64_le(bytes: &Vec<u8>, off: usize) -> (x: u64)
    requires
        off + 8 <= bytes@.len(),
    ensures
        x == u64_at(bytes@, off as int),
{
    let len = bytes.len();
    proof {
        assert(off + 8 <= len);
    }
    (bytes[off] as u64) | (bytes[off + 1] as u64) << 8 | (bytes[off + 2] as u64) << 16 | (bytes[off
        + 3] as u64) << 24 | (bytes[off + 4] as u64) << 32 | (bytes[off + 5] as u64) << 40 | (
    bytes[off + 6] as u64) << 48 | (bytes[off + 7] as u64) << 56
}

/// Read the `u32` at `off`.
pub fn decode_u32_le(bytes: &Vec<u8>, off: usize) -> (x: u32)
    requires
        off + 4 <= bytes@.len(),
    ensures
        x == u32_at(bytes@, off as int),
{
    let len = bytes.len();
    proof {
        assert(off + 4 <= len);
    }
    (bytes[off] as u32) | (bytes[off + 1] as u32) << 8 | (bytes[off + 2] as u32) << 16 | (bytes[off
        + 3] as u32) << 24
}

/// A buffer whose bytes at `off` are the little-endian bytes of `x` holds
/// `x` there.
pub proof fn lemma_u64_at_of_le_bytes(b: Seq<u8>, off: int, x: u64)
    requires
        0 <= off,
        off + 8 <= b.len(),
        b.subrange(off, off + 8) == u64_le_bytes(x),
    ensures
        u64_at(b, off) == x,
{
    let sub = b.subrange(off, off + 8);
    assert(b[off] == sub[0]);
    assert(b[off + 1] == sub[1]);
    assert(b[off + 2] == sub[2]);
    assert(b[off + 3] == sub[3]);
    assert(b[off + 4] == sub[4]);
    assert(b[off + 5] == sub[5]);
    assert(b[off + 6] == sub[6]);
    assert(b[off + 7] == sub[7]);
    lemma_u64_bytes_inverse(x);
}

/// A buffer whose bytes at `off` are the little-endian bytes of `x` holds
/// `x` there.
pub proof fn lemma_u32_at_of_le_bytes(b: Seq<u8>, off: int, x: u32)
    requires
        0 <= off,
        off + 4 <= b.len(),
        b.subrange(off, off + 4) == u32_le_bytes(x),
    ensures
        u32_at(b, off) == x,
{
    let sub = b.subrange(off, off + 4);
    assert(b[off] == sub[0]);
    assert(b[off + 1] == sub[1]);
    assert(b[off + 2] == sub[2]);
    assert(b[off + 3] == sub[3]);
    lemma_u32_bytes_inverse(x);
}

/// A buffer whose bytes at `off` are the little-endian bytes of the bit
/// pattern of `x` holds `x` there.
pub proof fn lemma_i32_at_of_le_bytes(b: Seq<u8>, off: int, x: i32)
    requires
        0 <= off,
        off + 4 <= b.len(),
        b.subrange(off, off + 4) == u32_le_bytes(i32_bits(x)),
    ensures
        i32_at(b, off) == x,
{
    lemma_u32_at_of_le_bytes(b, off, i32_bits(x));
    lemma_i32_bits_inverse(x);
}

/// Append a run of `u64` values, eight little-endian bytes each, leaving
/// everything already in `out` in place.
pub fn encode_u64_run(v: &Vec<u64>, out: &mut Vec<u8>)
    ensures
        final(out)@.len() == old(out)@.len() + 8 * v@.len(),
        forall|j: int| 0 <= j < old(out)@.len() ==> #[trigger] final(out)@[j] == old(out)@[j],
        forall|k: int| 0 <= k < v@.len() ==> #[trigger] final(out)@.subrange(
            old(out)@.len() + 8 * k,
            old(out)@.len() + 8 * k + 8,
        ) == u64_le_bytes(v@[k]),
{
    let ghost orig = out@;
    let mut i: usize = 0;
    while i < v.len()
        invariant
            i <= v@.len(),
            out@.len() == orig.len() + 8 * i,
            forall|j: int| 0 <= j < orig.len() ==> #[trigger] out@[j] == orig[j],
            forall|k: int| 0 <= k < i ==> #[trigger] out@.subrange(
                orig.len() + 8 * k,
                orig.len() + 8 * k + 8,
            ) == u64_le_bytes(v@[k]),
        decreases v@.len() - i,
    {
        let ghost prev = out@;
        encode_u64_le(v[i], out);
        proof {
            assert forall|k: int| 0 <= k < i + 1 implies #[trigger] out@.subrange(
                orig.len() + 8 * k,
                orig.len() + 8 * k + 8,
            ) == u64_le_bytes(v@[k]) by {
                if k < i {
                    assert(out@.subrange(orig.len() + 8 * k, orig.len() + 8 * k + 8)
                        =~= prev.subrange(orig.len() + 8 * k, orig.len() + 8 * k + 8));
                } else {
                    assert(out@.subrange(orig.len() + 8 * k, orig.len() + 8 * k + 8)
                        =~= u64_le_bytes(v@[k as int]));
                }
            }
        }
        i += 1;
    }
}

/// Append a run of `i32` values, four little-endian bytes of each value's
/// two's-complement bit pattern, leaving everything already in `out` in
/// place.
pub fn encode_i32_run(v: &Vec<i32>, out: &mut Vec<u8>)
    ensures
        final(out)@.len() == old(out)@.len() + 4 * v@.len(),
        forall|j: int| 0 <= j < old(out)@.len() ==> #[trigger] final(out)@[j] == old(out)@[j],
        forall|k: int| 0 <= k < v@.len() ==> #[trigger] final(out)@.subrange(
            old(out)@.len() + 4 * k,
            old(out)@.len() + 4 * k + 4,
        ) == u32_le_bytes(i32_bits(v@[k])),
{
    let ghost orig = out@;
    let mut i: usize = 0;
    while i < v.len()
        invariant
            i <= v@.len(),
            out@.len() == orig.len() + 4 * i,
            forall|j: int| 0 <= j < orig.len() ==> #[trigger] out@[j] == orig[j],
            forall|k: int| 0 <= k < i ==> #[trigger] out@.subrange(
                orig.len() + 4 * k,
                orig.len() + 4 * k + 4,
            ) == u32_le_bytes(i32_bits(v@[k])),
        decreases v@.len() - i,
    {
        let ghost prev = out@;
        let bits = i32_to_bits(v[i]);
        encode_u32_le(bits, out);
        proof {
            assert forall|k: int| 0 <= k < i + 1 implies #[trigger] out@.subrange(
                orig.len() + 4 * k,
                orig.len() + 4 * k + 4,
            ) == u32_le_bytes(i32_bits(v@[k])) by {
                if k < i {
                    assert(out@.subrange(orig.len() + 4 * k, orig.len() + 4 * k + 4)
                        =~= prev.subrange(orig.len() + 4 * k, orig.len() + 4 * k + 4));
                } else {
                    assert(out@.subrange(orig.len() + 4 * k, orig.len() + 4 * k + 4)
                        =~= u32_le_bytes(i32_bits(v@[k as int])));
                }
            }
        }
        i += 1;
    }
}

/// Append raw bytes, leaving everything already in `out` in place.
pub fn encode_byte_run(v: &Vec<u8>, out: &mut Vec<u8>)
    ensures
        final(out)@.len() == old(out)@.len() + v@.len(),
        forall|j: int| 0 <= j < old(out)@.len() ==> #[trigger] final(out)@[j] == old(out)@[j],
        final(out)@.subrange(old(out)@.len() as int, final(out)@.len() as int) == v@,
{
    let ghost orig = out@;
    let mut i: usize = 0;
    while i < v.len()
        invariant
            i <= v@.len(),
            out@.len() == orig.len() + i,
            forall|j: int| 0 <= j < orig.len() ==> #[trigger] out@[j] == orig[j],
            forall|k: int| 0 <= k < i ==> #[trigger] out@[orig.len() + k] == v@[k],
        decreases v@.len() - i,
    {
        out.push(v[i]);
        i += 1;
    }
    proof {
        assert forall|k: int| 0 <= k < v@.len() implies out@.subrange(
            orig.len() as int,
            out@.len() as int,
        )[k] == v@[k] by {
            assert(out@[orig.len() + k] == v@[k]);
        }
        assert(out@.subrange(orig.len() as int, out@.len() as int) =~= v@);
    }
}

/// Read a run of `count` consecutive `u64` values at `off`.
pub fn decode_u64_run(bytes: &Vec<u8>, off: usize, count: usize) -> (r: Vec<u64>)
    requires
        off + 8 * count <= bytes@.len(),
    ensures
        r@ == u64s_at(bytes@, off as int, count as int),
{
    let len = bytes.len();
    let mut r: Vec<u64> = Vec::new();
    let mut i: usize = 0;
    while i < count
        invariant
            i <= count,
            off + 8 * count <= bytes@.len(),
            bytes@.len() <= usize::MAX,
            r@.len() == i,
            forall|k: int| 0 <= k < i ==> #[trigger] r@[k] == u64_at(bytes@, off + 8 * k),
        decreases count - i,
    {
        r.push(decode_u64_le(bytes, off + 8 * i));
        i += 1;
    }
    proof {
        assert(r@ =~= u64s_at(bytes@, off as int, count as int));
    }
    r
}

/// Read a run of `count` consecutive `i32` values at `off`.
pub fn decode_i32_run(bytes: &Vec<u8>, off: usize, count: usize) -> (r: Vec<i32>)
    requires
        off + 4 * count <= bytes@.len(),
    ensures
        r@ == i32s_at(bytes@, off as int, count as int),
{
    let len = bytes.len();
    let mut r: Vec<i32> = Vec::new();
    let mut i: usize = 0;
    while i < count
        invariant
            i <= count,
            off + 4 * count <= bytes@.len(),
            bytes@.len() <= usize::MAX,
            r@.len() == i,
            forall|k: int| 0 <= k < i ==> #[trigger] r@[k] == i32_at(bytes@, off + 4 * k),
        decreases count - i,
    {
        let bits = decode_u32_le(bytes, off + 4 * i);
        r.push(bits_to_i32(bits));
        i += 1;
    }
    proof {
        assert(r@ =~= i32s_at(bytes@, off as int, count as int));
    }
    r
}

/// Copy `count` raw bytes starting at `off`.
pub fn decode_byte_run(bytes: &Vec<u8>, off: usize, count: usize) -> (r: Vec<u8>)
    requires
        off + count <= bytes@.len(),
    ensures
        r@ == bytes@.subrange(off as int, off + count),
{
    let len = bytes.len();
    let mut r: Vec<u8> = Vec::new();
    let mut i: usize = 0;
    while i < count
        invariant
            i <= count,
            off + count <= bytes@.len(),
            bytes@.len() <= usize::MAX,
            r@.len() == i,
            forall|k: int| 0 <= k < i ==> #[trigger] r@[k] == bytes@[off + k],
        decreases count - i,
    {
        r.push(bytes[off + i]);
        i += 1;
    }
    proof {
        assert(r@ =~= bytes@.subrange(off as int, off + count));
    }
    r
}

/// What a well-formed `calculate` request means, byte for byte: version,
/// kind, the atom count `n` as a `u32`, then `3 n` position values, `n`
/// atomic numbers, and the nine box-matrix values. Anything else is no
/// request.
pub open spec fn spec_decode_request(b: Seq<u8>) -> Option<(Seq<u64>, Seq<i32>, Seq<u64>)> {
    if b.len() < 6 {
        None
    } else if b[0] != WIRE_VERSION || b[1] != KIND_CALCULATE {
        None
    } else {
        let n = u32_at(b, 2) as int;
        if b.len() == 78 + 28 * n {
            Some(
                (
                    u64s_at(b, 6, 3 * n),
                    i32s_at(b, 6 + 24 * n, n),
                    u64s_at(b, 6 + 28 * n, 9),
                ),
            )
        } else {
            None
        }
    }
}

/// The shape discipline of the wire format itself: whatever decodes as a
/// request carries three position values per atomic number, exactly nine
/// box-matrix values, and an atom count the count field can hold — so any
/// conforming endpoint can build the query tensors from it.
pub proof fn lemma_decoded_request_is_consistent(b: Seq<u8>)
    requires
        spec_decode_request(b) is Some,
    ensures
        spec_decode_request(b) matches Some((pos, atm, bx)) && pos.len() == 3 * atm.len()
            && bx.len() == 9 && atm.len() <= u32::MAX,
{
}

/// Encode a `calculate` request. The bytes produced decode back to
/// exactly the three sequences handed in.
pub fn encode_request(positions: &Vec<u64>, atomic_numbers: &Vec<i32>, box_matrix: &Vec<u64>) -> (
    bytes: Vec<u8>)
    requires
        atomic_numbers@.len() <= u32::MAX,
        positions@.len() == 3 * atomic_numbers@.len(),
        box_matrix@.len() == 9,
    ensures
        bytes@.len() == 78 + 28 * atomic_numbers@.len(),
        spec_decode_request(bytes@) == Some((positions@, atomic_numbers@, box_matrix@)),
{
    let n = atomic_numbers.len();
    let ghost nn = n as int;
    let mut out: Vec<u8> = Vec::new();
    out.push(WIRE_VERSION);
    out.push(KIND_CALCULATE);
    encode_u32_le(n as u32, &mut out);
    let ghost hdr = out@;
    encode_u64_run(positions, &mut out);
    let ghost with_pos = out@;
    encode_i32_run(atomic_numbers, &mut out);
    let ghost with_atm = out@;
    encode_u64_run(box_matrix, &mut out);
    proof {
        let b = out@;
        assert(hdr.len() == 6);
        assert(with_pos.len() == 6 + 24 * nn);
        assert(with_atm.len() == 6 + 28 * nn);
        assert(b.len() == 78 + 28 * nn);
        // bytes below `with_atm.len()` were not touched by the later runs
        assert forall|j: int| 0 <= j < with_pos.len() implies b[j] == with_pos[j] by {
            assert(with_atm[j] == with_pos[j]);
            assert(b[j] == with_atm[j]);
        }
        // the header: version, kind, and the atom count
        assert(hdr[0] == WIRE_VERSION);
        assert(hdr[1] == KIND_CALCULATE);
        assert(b[0] == WIRE_VERSION);
        assert(b[1] == KIND_CALCULATE);
        assert(b.subrange(2, 6) =~= u32_le_bytes(n as u32));
        lemma_u32_at_of_le_bytes(b, 2, n as u32);
        assert(u32_at(b, 2) as int == nn);
        // the positions region
        assert forall|k: int| 0 <= k < 3 * nn implies u64_at(b, 6 + 8 * k) == positions@[k] by {
            assert(with_pos.subrange(6 + 8 * k, 6 + 8 * k + 8) == u64_le_bytes(positions@[k]));
            assert(b.subrange(6 + 8 * k, 6 + 8 * k + 8) =~= with_pos.subrange(
                6 + 8 * k,
                6 + 8 * k + 8,
            ));
            lemma_u64_at_of_le_bytes(b, 6 + 8 * k, positions@[k]);
        }
        assert(u64s_at(b, 6, 3 * nn) =~= positions@);
        // the atomic-numbers region
        assert forall|k: int| 0 <= k < nn implies i32_at(b, 6 + 24 * nn + 4 * k)
            == atomic_numbers@[k] by {
            assert(with_atm.subrange(6 + 24 * nn + 4 * k, 6 + 24 * nn + 4 * k + 4)
                == u32_le_bytes(i32_bits(atomic_numbers@[k])));
            assert(b.subrange(6 + 24 * nn + 4 * k, 6 + 24 * nn + 4 * k + 4) =~= with_atm.subrange(
                6 + 24 * nn + 4 * k,
                6 + 24 * nn + 4 * k + 4,
            ));
            lemma_i32_at_of_le_bytes(b, 6 + 24 * nn + 4 * k, atomic_numbers@[k]);
        }
        assert(i32s_at(b, 6 + 24 * nn, nn) =~= atomic_numbers@);
        // the box-matrix region
        assert forall|k: int| 0 <= k < 9 implies u64_at(b, 6 + 28 * nn + 8 * k)
            == box_matrix@[k] by {
            assert(b.subrange(with_atm.len() + 8 * k, with_atm.len() + 8 * k + 8) == u64_le_bytes(
                box_matrix@[k],
            ));
            lemma_u64_at_of_le_bytes(b, 6 + 28 * nn + 8 * k, box_matrix@[k]);
        }
        assert(u64s_at(b, 6 + 28 * nn, 9) =~= box_matrix@);
    }
    out
}

/// Decode a `calculate` request, returning the positions, atomic numbers,
/// and box matrix carried in it, or nothing when the bytes are not a
/// well-formed request.
pub fn decode_request(bytes: &Vec<u8>) -> (r: Option<(Vec<u64>, Vec<i32>, Vec<u64>)>)
    ensures
        match r {
            None => spec_decode_request(bytes@) is None,
            Some(m) => spec_decode_request(bytes@) == Some((m.0@, m.1@, m.2@)),
        },
{
    let len = bytes.len();
    if len < 6 {
        return None;
    }
    if bytes[0] != WIRE_VERSION || bytes[1] != KIND_CALCULATE {
        return None;
    }
    let n32 = decode_u32_le(bytes, 2);
    if (len as u64) != 78 + 28 * (n32 as u64) {
        return None;
    }
    let n = n32 as usize;
    let positions = decode_u64_run(bytes, 6, 3 * n);
    let atomic_numbers = decode_i32_run(bytes, 6 + 24 * n, n);
    let box_matrix = decode_u64_run(bytes, 6 + 28 * n, 9);
    Some((positions, atomic_numbers, box_matrix))
}

/// A decoded response: either a result carrying the energy and the flat
/// force sequence, or a failure carrying the remote status and a
/// human-readable cause.
#[derive(Debug, PartialEq, Eq)]
pub enum ResponseMsg {
    Success { energy: u64, forces: Vec<u64> },
    Failure { status: rgpot_status_t, message: Vec<u8> },
}

/// The mathematical shape of a response.
pub enum SpecResponse {
    Success { energy: u64, forces: Seq<u64> },
    Failure { status: rgpot_status_t, message: Seq<u8> },
}

impl ResponseMsg {
    /// The mathematical shape of this response.
    pub open spec fn view_msg(self) -> SpecResponse {
        match self {
            ResponseMsg::Success { energy, forces } => SpecResponse::Success {
                energy,
                forces: forces@,
            },
            ResponseMsg::Failure { status, message } => SpecResponse::Failure {
                status,
                message: message@,
            },
        }
    }
}

/// The wire code of a status.
pub open spec fn spec_status_code(s: rgpot_status_t) -> u8 {
    match s {
        rgpot_status_t::RGPOT_SUCCESS => 0,
        rgpot_status_t::RGPOT_INVALID_PARAMETER => 1,
        rgpot_status_t::RGPOT_INTERNAL_ERROR => 2,
        rgpot_status_t::RGPOT_RPC_ERROR => 3,
        rgpot_status_t::RGPOT_BUFFER_SIZE_ERROR => 4,
    }
}

/// The status a wire code stands for, if any.
pub open spec fn spec_status_of_code(c: u8) -> Option<rgpot_status_t> {
    if c == 0 {
        Some(rgpot_status_t::RGPOT_SUCCESS)
    } else if c == 1 {
        Some(rgpot_status_t::RGPOT_INVALID_PARAMETER)
    } else if c == 2 {
        Some(rgpot_status_t::RGPOT_INTERNAL_ERROR)
    } else if c == 3 {
        Some(rgpot_status_t::RGPOT_RPC_ERROR)
    } else if c == 4 {
        Some(rgpot_status_t::RGPOT_BUFFER_SIZE_ERROR)
    } else {
        None
    }
}

/// Every status code decodes back to the status it encodes.
pub proof fn lemma_status_code_inverse(s: rgpot_status_t)
    ensures
        spec_status_of_code(spec_status_code(s)) == Some(s),
{
}

/// The wire code of a status.
pub fn status_code(s: rgpot_status_t) -> (c: u8)
    ensures
        c == spec_status_code(s),
{
    match s {
        rgpot_status_t::RGPOT_SUCCESS => 0,
        rgpot_status_t::RGPOT_INVALID_PARAMETER => 1,
        rgpot_status_t::RGPOT_INTERNAL_ERROR => 2,
        rgpot_status_t::RGPOT_RPC_ERROR => 3,
        rgpot_status_t::RGPOT_BUFFER_SIZE_ERROR => 4,
    }
}

/// The status a wire code stands for, if any.
pub fn status_of_code(c: u8) -> (s: Option<rgpot_status_t>)
    ensures
        s == spec_status_of_code(c),
{
    if c == 0 {
        Some(rgpot_status_t::RGPOT_SUCCESS)
    } else if c == 1 {
        Some(rgpot_status_t::RGPOT_INVALID_PARAMETER)
    } else if c == 2 {
        Some(rgpot_status_t::RGPOT_INTERNAL_ERROR)
    } else if c == 3 {
        Some(rgpot_status_t::RGPOT_RPC_ERROR)
    } else if c == 4 {
        Some(rgpot_status_t::RGPOT_BUFFER_SIZE_ERROR)
    } else {
        None
    }
}

/// What a well-formed response means, byte for byte. A result carries the
/// energy, the force count `m` as a `u32`, and `m` force values; a failure
/// carries a status code and a length-prefixed message. Anything else is
/// no response.
pub open spec fn spec_decode_response(b: Seq<u8>) -> Option<SpecResponse> {
    if b.len() < 2 {
        None
    } else if b[0] != WIRE_VERSION {
        None
    } else if b[1] == KIND_RESULT {
        if b.len() < 14 {
            None
        } else {
            let m = u32_at(b, 10) as int;
            if b.len() == 14 + 8 * m {
                Some(SpecResponse::Success { energy: u64_at(b, 2), forces: u64s_at(b, 14, m) })
            } else {
                None
            }
        }
    } else if b[1] == KIND_FAILURE {
        if b.len() < 7 {
            None
        } else {
            match spec_status_of_code(b[2]) {
                None => None,
                Some(status) => {
                    let l = u32_at(b, 3) as int;
                    if b.len() == 7 + l {
                        Some(
                            SpecResponse::Failure {
                                status,
                                message: b.subrange(7, b.len() as int),
                            },
                        )
                    } else {
                        None
                    }
                },
            }
        }
    } else {
        None
    }
}

/// Encode a successful result. The bytes produced decode back to exactly
/// the energy and force sequence handed in.
pub fn encode_response_result(energy: u64, forces: &Vec<u64>) -> (bytes: Vec<u8>)
    requires
        forces@.len() <= u32::MAX,
    ensures
        bytes@.len() == 14 + 8 * forces@.len(),
        spec_decode_response(bytes@) == Some(
            SpecResponse::Success { energy, forces: forces@ },
        ),
{
    let m = forces.len();
    let ghost mm = m as int;
    let mut out: Vec<u8> = Vec::new();
    out.push(WIRE_VERSION);
    out.push(KIND_RESULT);
    encode_u64_le(energy, &mut out);
    encode_u32_le(m as u32, &mut out);
    let ghost hdr = out@;
    encode_u64_run(forces, &mut out);
    proof {
        let b = out@;
        assert(hdr.len() == 14);
        assert(b.len() == 14 + 8 * mm);
        assert(b[0] == WIRE_VERSION);
        assert(b[1] == KIND_RESULT);
        assert(b.subrange(2, 10) =~= u64_le_bytes(energy));
        lemma_u64_at_of_le_bytes(b, 2, energy);
        assert(b.subrange(10, 14) =~= u32_le_bytes(m as u32));
        lemma_u32_at_of_le_bytes(b, 10, m as u32);
        assert(u32_at(b, 10) as int == mm);
        assert forall|k: int| 0 <= k < mm implies u64_at(b, 14 + 8 * k) == forces@[k] by {
            assert(b.subrange(hdr.len() + 8 * k, hdr.len() + 8 * k + 8) == u64_le_bytes(
                forces@[k],
            ));
            lemma_u64_at_of_le_bytes(b, 14 + 8 * k, forces@[k]);
        }
        assert(u64s_at(b, 14, mm) =~= forces@);
    }
    out
}

/// Encode a failure report. The bytes produced decode back to exactly the
/// status and message handed in.
pub fn encode_response_failure(status: rgpot_status_t, message: &Vec<u8>) -> (bytes: Vec<u8>)
    requires
        message@.len() <= u32::MAX,
    ensures
        bytes@.len() == 7 + message@.len(),
        spec_decode_response(bytes@) == Some(
            SpecResponse::Failure { status, message: message@ },
        ),
{
    let l = message.len();
    let ghost ll = l as int;
    let mut out: Vec<u8> = Vec::new();
    out.push(WIRE_VERSION);
    out.push(KIND_FAILURE);
    out.push(status_code(status));
    encode_u32_le(l as u32, &mut out);
    let ghost hdr = out@;
    encode_byte_run(message, &mut out);
    proof {
        let b = out@;
        assert(hdr.len() == 7);
        assert(b.len() == 7 + ll);
        assert(b[0] == WIRE_VERSION);
        assert(b[1] == KIND_FAILURE);
        assert(b[2] == spec_status_code(status));
        lemma_status_code_inverse(status);
        assert(b.subrange(3, 7) =~= u32_le_bytes(l as u32));
        lemma_u32_at_of_le_bytes(b, 3, l as u32);
        assert(u32_at(b, 3) as int == ll);
        assert(b.subrange(7, b.len() as int) =~= message@);
    }
    out
}

/// Decode a response, or nothing when the bytes are not a well-formed
/// response.
pub fn decode_response(bytes: &Vec<u8>) -> (r: Option<ResponseMsg>)
    ensures
        match r {
            None => spec_decode_response(bytes@) is None,
            Some(m) => spec_decode_response(bytes@) == Some(m.view_msg()),
        },
{
    let len = bytes.len();
    if len < 2 {
        return None;
    }
    if bytes[0] != WIRE_VERSION {
        return None;
    }
    if bytes[1] == KIND_RESULT {
        if len < 14 {
            return None;
        }
        let m32 = decode_u32_le(bytes, 10);
        if (len as u64) != 14 + 8 * (m32 as u64) {
            return None;
        }
        let m = m32 as usize;
        let energy = decode_u64_le(bytes, 2);
        let forces = decode_u64_run(bytes, 14, m);
        Some(ResponseMsg::Success { energy, forces })
    } else if bytes[1] == KIND_FAILURE {
        if len < 7 {
            return None;
        }
        let status = match status_of_code(bytes[2]) {
            None => {
                return None;
            },
            Some(s) => s,
        };
        let l32 = decode_u32_le(bytes, 3);
        if (len as u64) != 7 + (l32 as u64) {
            return None;
        }
        let l = l32 as usize;
        let message = decode_byte_run(bytes, 7, l);
        proof {
            assert(bytes@.subrange(7, 7 + l as int) =~= bytes@.subrange(7, bytes@.len() as int));
        }
        Some(ResponseMsg::Failure { status, message })
    } else {
        None
    }
}

} // verus!

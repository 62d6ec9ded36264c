//! Little-endian integers, as the account and instruction layouts store them.
use vstd::prelude::*;

verus! {

/// The value of two little-endian bytes.
pub open spec fn le_u16(b: Seq<u8>) -> int {
    b[0] + 0x100 * b[1]
}

/// The value of eight little-endian bytes.
pub open spec fn le_u64(b: Seq<u8>) -> int {
    b[0] + 0x100 * b[1] + 0x1_0000 * b[2] + 0x100_0000 * b[3] + 0x1_0000_0000 * b[4]
        + 0x100_0000_0000 * b[5] + 0x1_0000_0000_0000 * b[6] + 0x100_0000_0000_0000 * b[7]
}

/// The two's-complement reading of eight little-endian bytes.
pub open spec fn le_i64(b: Seq<u8>) -> int {
    if le_u64(b) < 0x8000_0000_0000_0000 {
        le_u64(b)
    } else {
        le_u64(b) - 0x1_0000_0000_0000_0000
    }
}

/// The eight little-endian bytes of `x`.
pub open spec fn le_bytes_u64(x: u64) -> Seq<u8> {
    seq![
        (x % 0x100) as u8,
        (x / 0x100 % 0x100) as u8,
        (x / 0x1_0000 % 0x100) as u8,
        (x / 0x100_0000 % 0x100) as u8,
        (x / 0x1_0000_0000 % 0x100) as u8,
        (x / 0x100_0000_0000 % 0x100) as u8,
        (x / 0x1_0000_0000_0000 % 0x100) as u8,
        (x / 0x100_0000_0000_0000 % 0x100) as u8,
    ]
}

/// The two little-endian bytes of `x`.
pub open spec fn le_bytes_u16(x: u16) -> Seq<u8> {
    seq![(x % 0x100) as u8, (x / 0x100 % 0x100) as u8]
}

/// The eight little-endian two's-complement bytes of `x`.
pub open spec fn le_bytes_i64(x: i64) -> Seq<u8> {
    le_bytes_u64(
        if x >= 0 {
            x as u64
        } else {
            (x + 0x1_0000_0000_0000_0000) as u64
        },
    )
}

/// Reading back the two's-complement bytes of an `i64` gives the value.
pub proof fn lemma_le_i64_of_bytes(x: i64)
    ensures
        le_bytes_i64(x).len() == 8,
        le_i64(le_bytes_i64(x)) == x,
{
    let u: u64 = if x >= 0 {
        x as u64
    } else {
        (x + 0x1_0000_0000_0000_0000) as u64
    };
    lemma_le_u64_of_bytes(u);
}

/// Reading back the bytes of a `u16` gives the value.
pub proof fn lemma_le_u16_of_bytes(x: u16)
    ensures
        le_bytes_u16(x).len() == 2,
        le_u16(le_bytes_u16(x)) == x,
{
    let b0: u16 = x % 0x100;
    let b1: u16 = x / 0x100 % 0x100;
    assert(b0 < 0x100 && b1 < 0x100 && x == b0 + 0x100 * b1) by (bit_vector)
        requires
            b0 == x % 0x100,
            b1 == x / 0x100 % 0x100,
    ;
}

/// Reading back the bytes of a `u64` gives the value.
#[verifier::spinoff_prover]
pub proof fn lemma_le_u64_of_bytes(x: u64)
    ensures
        le_bytes_u64(x).len() == 8,
        le_u64(le_bytes_u64(x)) == x,
{
    let b0: u64 = x % 0x100;
    let b1: u64 = x / 0x100 % 0x100;
    let b2: u64 = x / 0x1_0000 % 0x100;
    let b3: u64 = x / 0x100_0000 % 0x100;
    let b4: u64 = x / 0x1_0000_0000 % 0x100;
    let b5: u64 = x / 0x100_0000_0000 % 0x100;
    let b6: u64 = x / 0x1_0000_0000_0000 % 0x100;
    let b7: u64 = x / 0x100_0000_0000_0000 % 0x100;
    assert(b0 < 0x100 && b1 < 0x100 && b2 < 0x100 && b3 < 0x100 && b4 < 0x100 && b5 < 0x100
        && b6 < 0x100 && b7 < 0x100 && x == b0 + 0x100 * b1 + 0x1_0000 * b2 + 0x100_0000 * b3
        + 0x1_0000_0000 * b4 + 0x100_0000_0000 * b5 + 0x1_0000_0000_0000 * b6
        + 0x100_0000_0000_0000 * b7) by (bit_vector)
        requires
            b0 == x % 0x100,
            b1 == x / 0x100 % 0x100,
            b2 == x / 0x1_0000 % 0x100,
            b3 == x / 0x100_0000 % 0x100,
            b4 == x / 0x1_0000_0000 % 0x100,
            b5 == x / 0x100_0000_0000 % 0x100,
            b6 == x / 0x1_0000_0000_0000 % 0x100,
            b7 == x / 0x100_0000_0000_0000 % 0x100,
    ;
}

/// The bytes of the value that eight bytes hold are those bytes.
pub proof fn lemma_le_bytes_of_u64(b: Seq<u8>)
    requires
        b.len() == 8,
    ensures
        0 <= le_u64(b) <= u64::MAX,
        le_bytes_u64(le_u64(b) as u64) == b,
{
    let b0: u64 = b[0] as u64;
    let b1: u64 = b[1] as u64;
    let b2: u64 = b[2] as u64;
    let b3: u64 = b[3] as u64;
    let b4: u64 = b[4] as u64;
    let b5: u64 = b[5] as u64;
    let b6: u64 = b[6] as u64;
    let b7: u64 = b[7] as u64;
    let x: u64 = (b0 + 0x100 * b1 + 0x1_0000 * b2 + 0x100_0000 * b3 + 0x1_0000_0000 * b4
        + 0x100_0000_0000 * b5 + 0x1_0000_0000_0000 * b6 + 0x100_0000_0000_0000 * b7) as u64;
    assert(x == b0 + 0x100 * b1 + 0x1_0000 * b2 + 0x100_0000 * b3 + 0x1_0000_0000 * b4
        + 0x100_0000_0000 * b5 + 0x1_0000_0000_0000 * b6 + 0x100_0000_0000_0000 * b7);
    assert(x % 0x100 == b0 && x / 0x100 % 0x100 == b1 && x / 0x1_0000 % 0x100 == b2 && x
        / 0x100_0000 % 0x100 == b3 && x / 0x1_0000_0000 % 0x100 == b4 && x / 0x100_0000_0000
        % 0x100 == b5 && x / 0x1_0000_0000_0000 % 0x100 == b6 && x / 0x100_0000_0000_0000 % 0x100
        == b7) by (bit_vector)
        requires
            b0 < 0x100,
            b1 < 0x100,
            b2 < 0x100,
            b3 < 0x100,
            b4 < 0x100,
            b5 < 0x100,
            b6 < 0x100,
            b7 < 0x100,
            x == b0 + 0x100 * b1 + 0x1_0000 * b2 + 0x100_0000 * b3 + 0x1_0000_0000 * b4
                + 0x100_0000_0000 * b5 + 0x1_0000_0000_0000 * b6 + 0x100_0000_0000_0000 * b7,
    ;
    assert(le_bytes_u64(x) =~= b);
}

/// The bytes of the value that two bytes hold are those bytes.
pub proof fn lemma_le_bytes_of_u16(b: Seq<u8>)
    requires
        b.len() == 2,
    ensures
        0 <= le_u16(b) <= u16::MAX,
        le_bytes_u16(le_u16(b) as u16) == b,
{
    let b0: u16 = b[0] as u16;
    let b1: u16 = b[1] as u16;
    let x: u16 = (b0 + 0x100 * b1) as u16;
    assert(x % 0x100 == b0 && x / 0x100 % 0x100 == b1) by (bit_vector)
        requires
            b0 < 0x100,
            b1 < 0x100,
            x == b0 + 0x100 * b1,
    ;
    assert(le_bytes_u16(x) =~= b);
}

/// The bytes of a `u64` are those of vstd's little-endian encoding, and the
/// value of eight bytes is vstd's little-endian decoding of them.
pub proof fn lemma_le_agrees_with_vstd(x: u64, b: Seq<u8>)
    ensures
        le_bytes_u64(x) == vstd::bytes::spec_u64_to_le_bytes(x),
        b.len() == 8 ==> le_u64(b) == vstd::bytes::spec_u64_from_le_bytes(b),
{
    vstd::bytes::spec_u64_to_le_bytes_to_open(x);
    assert(x % 0x100 == x & 0xff && x / 0x100 % 0x100 == (x >> 8) & 0xff && x / 0x1_0000 % 0x100
        == (x >> 16) & 0xff && x / 0x100_0000 % 0x100 == (x >> 24) & 0xff && x / 0x1_0000_0000
        % 0x100 == (x >> 32) & 0xff && x / 0x100_0000_0000 % 0x100 == (x >> 40) & 0xff && x
        / 0x1_0000_0000_0000 % 0x100 == (x >> 48) & 0xff && x / 0x100_0000_0000_0000 % 0x100 == (x
        >> 56) & 0xff) by (bit_vector);
    assert(le_bytes_u64(x) =~= vstd::bytes::spec_u64_to_le_bytes_open(x));
    if b.len() == 8 {
        lemma_le_bytes_of_u64(b);
        let v: u64 = le_u64(b) as u64;
        vstd::bytes::spec_u64_to_le_bytes_to_open(v);
        assert(v % 0x100 == v & 0xff && v / 0x100 % 0x100 == (v >> 8) & 0xff && v / 0x1_0000
            % 0x100 == (v >> 16) & 0xff && v / 0x100_0000 % 0x100 == (v >> 24) & 0xff && v
            / 0x1_0000_0000 % 0x100 == (v >> 32) & 0xff && v / 0x100_0000_0000 % 0x100 == (v >> 40)
            & 0xff && v / 0x1_0000_0000_0000 % 0x100 == (v >> 48) & 0xff && v
            / 0x100_0000_0000_0000 % 0x100 == (v >> 56) & 0xff) by (bit_vector);
        assert(le_bytes_u64(v) =~= vstd::bytes::spec_u64_to_le_bytes_open(v));
        vstd::bytes::lemma_auto_spec_u64_to_from_le_bytes();
        assert(vstd::bytes::spec_u64_from_le_bytes(vstd::bytes::spec_u64_to_le_bytes(v)) == v);
    }
}

/// Reads a `u16` from `b[at..at + 2]`.
pub fn read_u16_le(b: &[u8], at: usize) -> (r: u16)
    requires
        at + 2 <= b@.len(),
    ensures
        r == le_u16(b@.subrange(at as int, at + 2)),
{
    b[at] as u16 + (b[at + 1] as u16) * 0x100
}

/// Reads a `u64` from `b[at..at + 8]`.
pub fn read_u64_le(b: &[u8], at: usize) -> (r: u64)
    requires
        at + 8 <= b@.len(),
    ensures
        r == le_u64(b@.subrange(at as int, at + 8)),
{
    b[at] as u64 + (b[at + 1] as u64) * 0x100 + (b[at + 2] as u64) * 0x1_0000 + (b[at + 3] as u64)
        * 0x100_0000 + (b[at + 4] as u64) * 0x1_0000_0000 + (b[at + 5] as u64) * 0x100_0000_0000
        + (b[at + 6] as u64) * 0x1_0000_0000_0000 + (b[at + 7] as u64) * 0x100_0000_0000_0000
}

/// Reads an `i64` from `b[at..at + 8]`.
pub fn read_i64_le(b: &[u8], at: usize) -> (r: i64)
    requires
        at + 8 <= b@.len(),
    ensures
        r == le_i64(b@.subrange(at as int, at + 8)),
{
    let u: u64 = read_u64_le(b, at);
    if u < 0x8000_0000_0000_0000 {
        u as i64
    } else {
        let low: u64 = u - 0x8000_0000_0000_0000;
        (low as i64) - 0x4000_0000_0000_0000 - 0x4000_0000_0000_0000
    }
}

/// The little-endian bytes of a `u64`.
pub fn u64_to_le(x: u64) -> (r: [u8; 8])
    ensures
        r@ == le_bytes_u64(x),
        le_u64(r@) == x,
{
    let r: [u8; 8] = [
        (x % 0x100) as u8,
        (x / 0x100 % 0x100) as u8,
        (x / 0x1_0000 % 0x100) as u8,
        (x / 0x100_0000 % 0x100) as u8,
        (x / 0x1_0000_0000 % 0x100) as u8,
        (x / 0x100_0000_0000 % 0x100) as u8,
        (x / 0x1_0000_0000_0000 % 0x100) as u8,
        (x / 0x100_0000_0000_0000 % 0x100) as u8,
    ];
    assert(r@ =~= le_bytes_u64(x));
    proof {
        lemma_le_u64_of_bytes(x);
    }
    r
}

/// The little-endian bytes of a `u16`.
pub fn u16_to_le(x: u16) -> (r: [u8; 2])
    ensures
        r@ == le_bytes_u16(x),
        le_u16(r@) == x,
{
    let r: [u8; 2] = [(x % 0x100) as u8, (x / 0x100 % 0x100) as u8];
    assert(r@ =~= le_bytes_u16(x));
    proof {
        lemma_le_u16_of_bytes(x);
    }
    r
}

} // verus!

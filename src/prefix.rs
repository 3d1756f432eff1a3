//! The four-byte length prefix of a frame, in the byte order of the machine.
use vstd::endian::{endianness, Endian};
use vstd::prelude::*;

verus! {

/// The four bytes of `x`, least significant first.
pub open spec fn le_bytes(x: u32) -> Seq<u8> {
    seq![
        (x & 0xff) as u8,
        ((x >> 8u32) & 0xff) as u8,
        ((x >> 16u32) & 0xff) as u8,
        ((x >> 24u32) & 0xff) as u8,
    ]
}

/// The number whose bytes, least significant first, are `b[0..4]`.
pub open spec fn le_value(b: Seq<u8>) -> u32 {
    (b[0] as u32) | ((b[1] as u32) << 8u32) | ((b[2] as u32) << 16u32) | ((b[3] as u32) << 24u32)
}

/// The four bytes of `x` in the byte order of the running machine.
pub open spec fn ne_bytes(x: u32) -> Seq<u8> {
    match endianness() {
        Endian::Little => le_bytes(x),
        Endian::Big => le_bytes(x).reverse(),
    }
}

/// The number that `b[0..4]` encodes in the byte order of the running machine.
pub open spec fn ne_value(b: Seq<u8>) -> u32 {
    match endianness() {
        Endian::Little => le_value(b),
        Endian::Big => le_value(b.take(4).reverse()),
    }
}

/// Reading back the bytes of a number gives the number.
pub proof fn lemma_ne_round_trip(x: u32)
    ensures
        ne_bytes(x).len() == 4,
        ne_value(ne_bytes(x)) == x,
{
    let b0 = (x & 0xff) as u8;
    let b1 = ((x >> 8u32) & 0xff) as u8;
    let b2 = ((x >> 16u32) & 0xff) as u8;
    let b3 = ((x >> 24u32) & 0xff) as u8;
    assert(((b0 as u32) | ((b1 as u32) << 8u32) | ((b2 as u32) << 16u32) | ((b3 as u32)
        << 24u32)) == x) by (bit_vector)
        requires
            b0 == (x & 0xff) as u8,
            b1 == ((x >> 8u32) & 0xff) as u8,
            b2 == ((x >> 16u32) & 0xff) as u8,
            b3 == ((x >> 24u32) & 0xff) as u8,
    ;
    let le = le_bytes(x);
    assert(le.take(4) =~= le);
    assert(le.reverse().take(4).reverse() =~= le);
}

/// Relies on `u32::to_ne_bytes`: the bytes of `x` in the machine's byte order.
#[verifier::external_body]
pub(crate) fn u32_to_ne_bytes(x: u32) -> (r: [u8; 4])
    ensures
        r@ == ne_bytes(x),
{
    x.to_ne_bytes()
}

/// Relies on `u32::from_ne_bytes`: the number that `b` encodes in the machine's
/// byte order.
#[verifier::external_body]
pub(crate) fn u32_from_ne_bytes(b: [u8; 4]) -> (r: u32)
    ensures
        r == ne_value(b@),
{
    u32::from_ne_bytes(b)
}

} // verus!

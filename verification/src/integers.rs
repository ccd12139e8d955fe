//! Fixed-width integer codec.
//!
//! `U24` and `U48` are newtypes over native unsigned integers restricted to
//! 24 and 48 significant bits; they are constructible only by range-checked
//! conversion and serialize to fixed big-endian byte arrays. This module
//! also holds the big-endian byte-sequence spec functions that every wire
//! contract in the crate is stated over.

use crate::DTlsError;
use vstd::prelude::*;

verus! {

/// The big-endian encoding of a 16-bit value, as a byte sequence.
pub open spec fn u16_be_bytes(v: u16) -> Seq<u8> {
    seq![((v >> 8) & 0xFF) as u8, (v & 0xFF) as u8]
}

/// The big-endian encoding of a 24-bit value held in a `u32`.
pub open spec fn u24_be_bytes(v: u32) -> Seq<u8> {
    seq![((v >> 16) & 0xFF) as u8, ((v >> 8) & 0xFF) as u8, (v & 0xFF) as u8]
}

/// The big-endian encoding of a 32-bit value, as a byte sequence.
pub open spec fn u32_be_bytes(v: u32) -> Seq<u8> {
    seq![
        ((v >> 24) & 0xFF) as u8,
        ((v >> 16) & 0xFF) as u8,
        ((v >> 8) & 0xFF) as u8,
        (v & 0xFF) as u8,
    ]
}

/// The big-endian encoding of a 48-bit value held in a `u64`.
pub open spec fn u48_be_bytes(v: u64) -> Seq<u8> {
    seq![
        ((v >> 40) & 0xFF) as u8,
        ((v >> 32) & 0xFF) as u8,
        ((v >> 24) & 0xFF) as u8,
        ((v >> 16) & 0xFF) as u8,
        ((v >> 8) & 0xFF) as u8,
        (v & 0xFF) as u8,
    ]
}

/// The 24-bit value read back from three big-endian bytes.
pub open spec fn u24_from_be_bytes(b: Seq<u8>) -> u32
    recommends
        b.len() == 3,
{
    ((b[0] as u32) << 16) | ((b[1] as u32) << 8) | (b[2] as u32)
}

/// The 48-bit value read back from six big-endian bytes.
pub open spec fn u48_from_be_bytes(b: Seq<u8>) -> u64
    recommends
        b.len() == 6,
{
    ((b[0] as u64) << 40) | ((b[1] as u64) << 32) | ((b[2] as u64) << 24) | ((b[3] as u64) << 16)
        | ((b[4] as u64) << 8) | (b[5] as u64)
}

/// Big-endian encoding of a `u16`, as executable code.
pub fn u16_to_be(v: u16) -> (r: [u8; 2])
    ensures
        r@ == u16_be_bytes(v),
{
    let r = [((v >> 8) & 0xFF) as u8, (v & 0xFF) as u8];
    proof {
        assert(r@ =~= u16_be_bytes(v));
    }
    r
}

/// Big-endian encoding of a `u32`, as executable code.
pub fn u32_to_be(v: u32) -> (r: [u8; 4])
    ensures
        r@ == u32_be_bytes(v),
{
    let r = [
        ((v >> 24) & 0xFF) as u8,
        ((v >> 16) & 0xFF) as u8,
        ((v >> 8) & 0xFF) as u8,
        (v & 0xFF) as u8,
    ];
    proof {
        assert(r@ =~= u32_be_bytes(v));
    }
    r
}

/// A 24-bit unsigned integer: a `u32` restricted to values below `2^24`.
#[derive(Clone, Copy, Debug, PartialEq, Eq, Structural)]
pub struct U24 {
    v: u32,
}

impl U24 {
    /// The numeric value, for use in contracts.
    pub closed spec fn spec_value(&self) -> u32 {
        self.v
    }

    #[verifier::type_invariant]
    spec fn inv(&self) -> bool {
        self.v <= 0xFFFFFF
    }

    /// Range-checked construction: fails exactly when `value` needs more
    /// than 24 bits.
    pub fn new(value: u32) -> (r: Result<U24, DTlsError>)
        ensures
            r is Ok <==> value <= 0xFFFFFF,
            r matches Ok(n) ==> n.spec_value() == value,
            r matches Err(e) ==> e == DTlsError::RangeExceeded,
    {
        if value <= 0xFFFFFF {
            Ok(U24 { v: value })
        } else {
            Err(DTlsError::RangeExceeded)
        }
    }

    /// The zero value, as used for reserved and not-yet-patched fields.
    pub fn zero() -> (r: U24)
        ensures
            r.spec_value() == 0,
    {
        U24 { v: 0 }
    }

    /// The numeric value.
    pub fn value(&self) -> (r: u32)
        ensures
            r == self.spec_value(),
            r <= 0xFFFFFF,
    {
        proof {
            use_type_invariant(self);
        }
        self.v
    }

    /// The three big-endian bytes of the value.
    pub fn to_be_bytes(&self) -> (r: [u8; 3])
        ensures
            r@ == u24_be_bytes(self.spec_value()),
    {
        let v = self.v;
        let r = [((v >> 16) & 0xFF) as u8, ((v >> 8) & 0xFF) as u8, (v & 0xFF) as u8];
        proof {
            assert(r@ =~= u24_be_bytes(self.spec_value()));
        }
        r
    }

    /// Reconstruction from three big-endian bytes; three bytes always fit,
    /// so this cannot fail.
    pub fn from_be_bytes(bytes: [u8; 3]) -> (r: U24)
        ensures
            r.spec_value() == u24_from_be_bytes(bytes@),
    {
        let b0 = bytes[0];
        let b1 = bytes[1];
        let b2 = bytes[2];
        let v = ((b0 as u32) << 16) | ((b1 as u32) << 8) | (b2 as u32);
        proof {
            assert(((b0 as u32) << 16) | ((b1 as u32) << 8) | (b2 as u32) <= 0xFFFFFF)
                by (bit_vector);
        }
        U24 { v }
    }
}

/// A 48-bit unsigned integer: a `u64` restricted to values below `2^48`.
#[derive(Clone, Copy, Debug, PartialEq, Eq, Structural)]
pub struct U48 {
    v: u64,
}

impl U48 {
    /// The numeric value, for use in contracts.
    pub closed spec fn spec_value(&self) -> u64 {
        self.v
    }

    #[verifier::type_invariant]
    spec fn inv(&self) -> bool {
        self.v <= 0xFFFFFFFFFFFF
    }

    /// Range-checked construction: fails exactly when `value` needs more
    /// than 48 bits.
    pub fn new(value: u64) -> (r: Result<U48, DTlsError>)
        ensures
            r is Ok <==> value <= 0xFFFFFFFFFFFF,
            r matches Ok(n) ==> n.spec_value() == value,
            r matches Err(e) ==> e == DTlsError::RangeExceeded,
    {
        if value <= 0xFFFFFFFFFFFF {
            Ok(U48 { v: value })
        } else {
            Err(DTlsError::RangeExceeded)
        }
    }

    /// The zero value, as used for the initial record sequence number.
    pub fn zero() -> (r: U48)
        ensures
            r.spec_value() == 0,
    {
        U48 { v: 0 }
    }

    /// The numeric value.
    pub fn value(&self) -> (r: u64)
        ensures
            r == self.spec_value(),
            r <= 0xFFFFFFFFFFFF,
    {
        proof {
            use_type_invariant(self);
        }
        self.v
    }

    /// The six big-endian bytes of the value.
    pub fn to_be_bytes(&self) -> (r: [u8; 6])
        ensures
            r@ == u48_be_bytes(self.spec_value()),
    {
        let v = self.v;
        let r = [
            ((v >> 40) & 0xFF) as u8,
            ((v >> 32) & 0xFF) as u8,
            ((v >> 24) & 0xFF) as u8,
            ((v >> 16) & 0xFF) as u8,
            ((v >> 8) & 0xFF) as u8,
            (v & 0xFF) as u8,
        ];
        proof {
            assert(r@ =~= u48_be_bytes(self.spec_value()));
        }
        r
    }

    /// Reconstruction from six big-endian bytes; six bytes always fit, so
    /// this cannot fail.
    pub fn from_be_bytes(bytes: [u8; 6]) -> (r: U48)
        ensures
            r.spec_value() == u48_from_be_bytes(bytes@),
    {
        let b0 = bytes[0];
        let b1 = bytes[1];
        let b2 = bytes[2];
        let b3 = bytes[3];
        let b4 = bytes[4];
        let b5 = bytes[5];
        let v = ((b0 as u64) << 40) | ((b1 as u64) << 32) | ((b2 as u64) << 24) | (
        (b3 as u64) << 16) | ((b4 as u64) << 8) | (b5 as u64);
        proof {
            assert(((b0 as u64) << 40) | ((b1 as u64) << 32) | ((b2 as u64) << 24) | (
            (b3 as u64) << 16) | ((b4 as u64) << 8) | (b5 as u64) <= 0xFFFFFFFFFFFF)
                by (bit_vector);
        }
        U48 { v }
    }
}

/// Law: a 24-bit value is unchanged by a round trip through its big-endian
/// bytes and back.
pub proof fn lemma_u24_round_trip(v: u32)
    requires
        v <= 0xFFFFFF,
    ensures
        u24_from_be_bytes(u24_be_bytes(v)) == v,
{
    assert(v <= 0xFFFFFF ==> ((((v >> 16) & 0xFF) as u8) as u32) << 16 | ((((v >> 8) & 0xFF) as u8)
        as u32) << 8 | (((v & 0xFF) as u8) as u32) == v) by (bit_vector);
}

/// Law: a 48-bit value is unchanged by a round trip through its big-endian
/// bytes and back.
pub proof fn lemma_u48_round_trip(v: u64)
    requires
        v <= 0xFFFFFFFFFFFF,
    ensures
        u48_from_be_bytes(u48_be_bytes(v)) == v,
{
    assert(v <= 0xFFFFFFFFFFFF ==> ((((v >> 40) & 0xFF) as u8) as u64) << 40 | ((((v >> 32) & 0xFF)
        as u8) as u64) << 32 | ((((v >> 24) & 0xFF) as u8) as u64) << 24 | ((((v >> 16) & 0xFF)
        as u8) as u64) << 16 | ((((v >> 8) & 0xFF) as u8) as u64) << 8 | (((v & 0xFF) as u8)
        as u64) == v) by (bit_vector);
}

} // verus!

//! A mutable, fixed-capacity byte store with a write cursor, and the
//! single-use allocation handles used to patch reserved regions.
//!
//! Every mutating operation is fallible and atomic: it either commits all
//! of its bytes or commits none and reports [`DTlsError::CapacityExceeded`].
//! An `alloc_*` operation reserves zero-initialized bytes at the current
//! end of the buffer and returns a handle tied to that offset; redeeming
//! the handle overwrites exactly the reserved range. A handle is consumed
//! by value when redeemed, so it cannot be redeemed twice, and it is
//! marked `#[must_use]` because a reserved length field left unpatched is
//! a malformed record. Verified callers prove on their success paths that
//! every handle is redeemed; there is no runtime abort here, so an
//! unverified caller that drops a handle unredeemed is only warned at
//! compile time and must abort the record itself.

use crate::integers::{
    u16_be_bytes, u16_to_be, u24_be_bytes, u32_be_bytes, u32_to_be, u48_be_bytes, U24, U48,
};
use crate::DTlsError;
use vstd::prelude::*;

verus! {

/// The fixed capacity, in bytes, of [`HeaplessTlsBuffer`]: enough for one
/// DTLS record carried in a single UDP datagram.
pub const BUFFER_CAPACITY: usize = 1024;

#[verifier::external_type_specification]
#[verifier::external_body]
#[verifier::reject_recursive_types(T)]
pub struct ExHeaplessVec<T, const N: usize>(heapless::Vec<T, N>);

/// The bytes held by the fixed-capacity vector backing a buffer, oldest
/// first.
pub uninterp spec fn hvec_bytes(v: heapless::Vec<u8, BUFFER_CAPACITY>) -> Seq<u8>;

/// Relies on `heapless::Vec::new`: a freshly constructed vector holds no
/// elements.
#[verifier::external_body]
fn hvec_new() -> (r: heapless::Vec<u8, BUFFER_CAPACITY>)
    ensures
        hvec_bytes(r) == Seq::<u8>::empty(),
{
    heapless::Vec::new()
}

/// Relies on `heapless::Vec::as_slice` and `[u8]::len`: the number of
/// elements held, which never exceeds the fixed capacity.
#[verifier::external_body]
fn hvec_len(v: &heapless::Vec<u8, BUFFER_CAPACITY>) -> (r: usize)
    ensures
        r == hvec_bytes(*v).len(),
        r <= BUFFER_CAPACITY,
{
    v.as_slice().len()
}

/// Relies on `heapless::Vec::as_slice`: a view of all elements held.
#[verifier::external_body]
fn hvec_as_slice(v: &heapless::Vec<u8, BUFFER_CAPACITY>) -> (r: &[u8])
    ensures
        r@ == hvec_bytes(*v),
{
    v.as_slice()
}

/// Relies on `heapless::Vec::push`: appends one element when the vector is
/// below capacity, else hands the element back and modifies nothing.
#[verifier::external_body]
fn hvec_push(v: &mut heapless::Vec<u8, BUFFER_CAPACITY>, val: u8) -> (r: Result<(), u8>)
    ensures
        match r {
            Ok(()) => hvec_bytes(*old(v)).len() < BUFFER_CAPACITY && hvec_bytes(*final(v))
                == hvec_bytes(*old(v)).push(val),
            Err(b) => b == val && hvec_bytes(*old(v)).len() >= BUFFER_CAPACITY && hvec_bytes(*final(v)) == hvec_bytes(*old(v)),
        },
{
    v.push(val)
}

/// Relies on `heapless::Vec::extend_from_slice`: appends the whole slice
/// when it fits the remaining capacity, else errs and modifies nothing.
#[verifier::external_body]
fn hvec_extend(v: &mut heapless::Vec<u8, BUFFER_CAPACITY>, other: &[u8]) -> (r: Result<(), ()>)
    ensures
        match r {
            Ok(()) => hvec_bytes(*old(v)).len() + other@.len() <= BUFFER_CAPACITY && hvec_bytes(*final(v)) == hvec_bytes(*old(v)) + other@,
            Err(()) => hvec_bytes(*old(v)).len() + other@.len() > BUFFER_CAPACITY && hvec_bytes(*final(v)) == hvec_bytes(*old(v)),
        },
{
    v.extend_from_slice(other)
}

/// Relies on `heapless::Vec::as_mut_slice`, which exposes the initialized
/// prefix: stores one element in place.
#[verifier::external_body]
fn hvec_set(v: &mut heapless::Vec<u8, BUFFER_CAPACITY>, i: usize, val: u8)
    requires
        i < hvec_bytes(*old(v)).len(),
    ensures
        hvec_bytes(*final(v)) == hvec_bytes(*old(v)).update(i as int, val),
{
    v.as_mut_slice()[i] = val;
}

/// A sequence of `n` zero bytes, as reserved by the `alloc_*` operations.
pub open spec fn zero_bytes(n: nat) -> Seq<u8> {
    Seq::new(n, |i: int| 0u8)
}

/// Bytes committed before a failed encode operation are retained: the new
/// contents extend the prior contents. A failure aborts the record under
/// construction, so nothing reads the bytes the failed operation left
/// behind.
pub open spec fn retains_prefix(new: Seq<u8>, prior: Seq<u8>) -> bool {
    new.len() >= prior.len() && forall|i: int| 0 <= i < prior.len() ==> new[i] == prior[i]
}

/// A mutable, fixed-capacity byte store with a write cursor.
///
/// It allows for building DTLS records with look back for writing lengths:
/// the `alloc_*` operations reserve zero-initialized regions at the current
/// end of the buffer and return single-use handles with which the caller
/// patches those regions once the dependent value (a length, a binder) is
/// known.
pub trait DTlsBuffer {
    /// The bytes written so far, oldest first.
    spec fn bytes(&self) -> Seq<u8>;

    /// The fixed capacity of the store.
    spec fn spec_capacity(&self) -> nat;

    /// The current length, which never exceeds the capacity.
    fn len(&self) -> (r: usize)
        ensures
            r == self.bytes().len(),
            r <= self.spec_capacity(),
    ;

    /// The fixed capacity.
    fn capacity(&self) -> (r: usize)
        ensures
            r == self.spec_capacity(),
    ;

    /// All bytes written so far.
    fn as_slice(&self) -> (r: &[u8])
        ensures
            r@ == self.bytes(),
    ;

    /// Push a byte.
    fn push_u8(&mut self, val: u8) -> (r: Result<(), DTlsError>)
        ensures
            final(self).spec_capacity() == old(self).spec_capacity(),
            match r {
                Ok(()) => old(self).bytes().len() + 1 <= old(self).spec_capacity() && final(self).bytes() == old(self).bytes().push(val),
                Err(e) => e == DTlsError::CapacityExceeded && old(self).bytes().len() + 1 > old(self).spec_capacity() && final(self).bytes() == old(self).bytes(),
            },
    ;

    /// Extend from a slice; commits the whole slice or nothing.
    fn extend_from_slice(&mut self, slice: &[u8]) -> (r: Result<(), DTlsError>)
        ensures
            final(self).spec_capacity() == old(self).spec_capacity(),
            match r {
                Ok(()) => old(self).bytes().len() + slice@.len() <= old(self).spec_capacity()
                    && final(self).bytes() == old(self).bytes() + slice@,
                Err(e) => e == DTlsError::CapacityExceeded && old(self).bytes().len() + slice@.len()
                    > old(self).spec_capacity() && final(self).bytes() == old(self).bytes(),
            },
    ;

    /// Overwrite the byte at `index`, which must already be written.
    fn set_byte(&mut self, index: usize, val: u8)
        requires
            index < old(self).bytes().len(),
        ensures
            final(self).spec_capacity() == old(self).spec_capacity(),
            final(self).bytes() == old(self).bytes().update(index as int, val),
    ;

    /// Push a `u16` in big-endian.
    fn push_u16_be(&mut self, val: u16) -> (r: Result<(), DTlsError>)
        ensures
            final(self).spec_capacity() == old(self).spec_capacity(),
            match r {
                Ok(()) => old(self).bytes().len() + 2 <= old(self).spec_capacity() && final(self).bytes() == old(self).bytes() + u16_be_bytes(val),
                Err(e) => e == DTlsError::CapacityExceeded && old(self).bytes().len() + 2 > old(self).spec_capacity() && final(self).bytes() == old(self).bytes(),
            },
    {
        let b = u16_to_be(val);
        self.extend_from_slice(b.as_slice())
    }

    /// Push a `u24` in big-endian.
    fn push_u24_be(&mut self, val: U24) -> (r: Result<(), DTlsError>)
        ensures
            final(self).spec_capacity() == old(self).spec_capacity(),
            match r {
                Ok(()) => old(self).bytes().len() + 3 <= old(self).spec_capacity() && final(self).bytes() == old(self).bytes() + u24_be_bytes(val.spec_value()),
                Err(e) => e == DTlsError::CapacityExceeded && old(self).bytes().len() + 3 > old(self).spec_capacity() && final(self).bytes() == old(self).bytes(),
            },
    {
        let b = val.to_be_bytes();
        self.extend_from_slice(b.as_slice())
    }

    /// Push a `u32` in big-endian.
    fn push_u32_be(&mut self, val: u32) -> (r: Result<(), DTlsError>)
        ensures
            final(self).spec_capacity() == old(self).spec_capacity(),
            match r {
                Ok(()) => old(self).bytes().len() + 4 <= old(self).spec_capacity() && final(self).bytes() == old(self).bytes() + u32_be_bytes(val),
                Err(e) => e == DTlsError::CapacityExceeded && old(self).bytes().len() + 4 > old(self).spec_capacity() && final(self).bytes() == old(self).bytes(),
            },
    {
        let b = u32_to_be(val);
        self.extend_from_slice(b.as_slice())
    }

    /// Push a `u48` in big-endian.
    fn push_u48_be(&mut self, val: U48) -> (r: Result<(), DTlsError>)
        ensures
            final(self).spec_capacity() == old(self).spec_capacity(),
            match r {
                Ok(()) => old(self).bytes().len() + 6 <= old(self).spec_capacity() && final(self).bytes() == old(self).bytes() + u48_be_bytes(val.spec_value()),
                Err(e) => e == DTlsError::CapacityExceeded && old(self).bytes().len() + 6 > old(self).spec_capacity() && final(self).bytes() == old(self).bytes(),
            },
    {
        let b = val.to_be_bytes();
        self.extend_from_slice(b.as_slice())
    }

    /// Allocate the space for a `u8` for later updating.
    fn alloc_u8(&mut self) -> (r: Result<AllocU8Handle, DTlsError>)
        ensures
            final(self).spec_capacity() == old(self).spec_capacity(),
            match r {
                Ok(h) => old(self).bytes().len() + 1 <= old(self).spec_capacity() && final(self).bytes() == old(self).bytes() + zero_bytes(1) && h.index == old(self).bytes().len(),
                Err(e) => e == DTlsError::CapacityExceeded && old(self).bytes().len() + 1 > old(self).spec_capacity() && final(self).bytes() == old(self).bytes(),
            },
    {
        let index = self.len();
        let b = [0u8];
        self.extend_from_slice(b.as_slice())?;
        proof {
            assert(b@ =~= zero_bytes(1));
        }
        Ok(AllocU8Handle { index })
    }

    /// Allocate the space for a `u16` for later updating.
    fn alloc_u16(&mut self) -> (r: Result<AllocU16Handle, DTlsError>)
        ensures
            final(self).spec_capacity() == old(self).spec_capacity(),
            match r {
                Ok(h) => old(self).bytes().len() + 2 <= old(self).spec_capacity() && final(self).bytes() == old(self).bytes() + zero_bytes(2) && h.index == old(self).bytes().len(),
                Err(e) => e == DTlsError::CapacityExceeded && old(self).bytes().len() + 2 > old(self).spec_capacity() && final(self).bytes() == old(self).bytes(),
            },
    {
        let index = self.len();
        let b = [0u8, 0u8];
        self.extend_from_slice(b.as_slice())?;
        proof {
            assert(b@ =~= zero_bytes(2));
        }
        Ok(AllocU16Handle { index })
    }

    /// Allocate the space for a `u24` for later updating.
    fn alloc_u24(&mut self) -> (r: Result<AllocU24Handle, DTlsError>)
        ensures
            final(self).spec_capacity() == old(self).spec_capacity(),
            match r {
                Ok(h) => old(self).bytes().len() + 3 <= old(self).spec_capacity() && final(self).bytes() == old(self).bytes() + zero_bytes(3) && h.index == old(self).bytes().len(),
                Err(e) => e == DTlsError::CapacityExceeded && old(self).bytes().len() + 3 > old(self).spec_capacity() && final(self).bytes() == old(self).bytes(),
            },
    {
        let index = self.len();
        let b = [0u8, 0u8, 0u8];
        self.extend_from_slice(b.as_slice())?;
        proof {
            assert(b@ =~= zero_bytes(3));
        }
        Ok(AllocU24Handle { index })
    }

    /// Allocate the space for a `u48` for later updating.
    fn alloc_u48(&mut self) -> (r: Result<AllocU48Handle, DTlsError>)
        ensures
            final(self).spec_capacity() == old(self).spec_capacity(),
            match r {
                Ok(h) => old(self).bytes().len() + 6 <= old(self).spec_capacity() && final(self).bytes() == old(self).bytes() + zero_bytes(6) && h.index == old(self).bytes().len(),
                Err(e) => e == DTlsError::CapacityExceeded && old(self).bytes().len() + 6 > old(self).spec_capacity() && final(self).bytes() == old(self).bytes(),
            },
    {
        let index = self.len();
        let b = [0u8, 0u8, 0u8, 0u8, 0u8, 0u8];
        self.extend_from_slice(b.as_slice())?;
        proof {
            assert(b@ =~= zero_bytes(6));
        }
        Ok(AllocU48Handle { index })
    }

    /// Allocate space for a slice of `len` bytes for later updating;
    /// commits the whole reservation or nothing.
    fn alloc_slice(&mut self, len: usize) -> (r: Result<AllocSliceHandle, DTlsError>)
        ensures
            final(self).spec_capacity() == old(self).spec_capacity(),
            match r {
                Ok(h) => old(self).bytes().len() + len <= old(self).spec_capacity() && final(self).bytes() == old(self).bytes() + zero_bytes(len as nat) && h.index == old(self).bytes().len() && h.len == len,
                Err(e) => e == DTlsError::CapacityExceeded && old(self).bytes().len() + len > old(self).spec_capacity() && final(self).bytes() == old(self).bytes(),
            },
    {
        let index = self.len();
        let cap = self.capacity();
        if len > cap - index {
            return Err(DTlsError::CapacityExceeded);
        }
        let mut i: usize = 0;
        while i < len
            invariant
                i <= len,
                index + len <= self.spec_capacity(),
                index == old(self).bytes().len(),
                self.spec_capacity() == old(self).spec_capacity(),
                self.bytes() == old(self).bytes() + zero_bytes(i as nat),
            decreases len - i,
        {
            let r = self.push_u8(0);
            proof {
                if r is Err {
                    assert(false);
                }
                assert((old(self).bytes() + zero_bytes(i as nat)).push(0u8) =~= old(self).bytes()
                    + zero_bytes((i + 1) as nat));
            }
            i = i + 1;
        }
        Ok(AllocSliceHandle { index, len })
    }
}

/// A buffer handler owning a fixed-capacity byte vector.
pub struct HeaplessTlsBuffer {
    buf: heapless::Vec<u8, BUFFER_CAPACITY>,
}

impl HeaplessTlsBuffer {
    /// Create a new, empty buffer wrapper.
    pub fn new() -> (r: Self)
        ensures
            r.bytes() == Seq::<u8>::empty(),
            r.spec_capacity() == BUFFER_CAPACITY,
    {
        Self { buf: hvec_new() }
    }
}

impl DTlsBuffer for HeaplessTlsBuffer {
    closed spec fn bytes(&self) -> Seq<u8> {
        hvec_bytes(self.buf)
    }

    closed spec fn spec_capacity(&self) -> nat {
        BUFFER_CAPACITY as nat
    }

    fn len(&self) -> (r: usize) {
        hvec_len(&self.buf)
    }

    fn capacity(&self) -> (r: usize) {
        BUFFER_CAPACITY
    }

    fn as_slice(&self) -> (r: &[u8]) {
        hvec_as_slice(&self.buf)
    }

    fn push_u8(&mut self, val: u8) -> (r: Result<(), DTlsError>) {
        match hvec_push(&mut self.buf, val) {
            Ok(()) => Ok(()),
            Err(_) => Err(DTlsError::CapacityExceeded),
        }
    }

    fn extend_from_slice(&mut self, slice: &[u8]) -> (r: Result<(), DTlsError>) {
        match hvec_extend(&mut self.buf, slice) {
            Ok(()) => Ok(()),
            Err(()) => Err(DTlsError::CapacityExceeded),
        }
    }

    fn set_byte(&mut self, index: usize, val: u8) {
        hvec_set(&mut self.buf, index, val);
    }
}

/// Handle to an allocated `u8` spot in a `DTlsBuffer`: a single-use
/// capability, consumed by value when redeemed.
#[must_use]
pub struct AllocU8Handle {
    /// The byte offset reserved for the value.
    pub index: usize,
}

impl AllocU8Handle {
    /// Set the value, consuming the handle.
    pub fn set<B: DTlsBuffer>(self, buf: &mut B, val: u8)
        requires
            self.index < old(buf).bytes().len(),
        ensures
            final(buf).spec_capacity() == old(buf).spec_capacity(),
            final(buf).bytes() == old(buf).bytes().update(self.index as int, val),
            final(buf).bytes().len() == old(buf).bytes().len(),
            forall|j: int|
                0 <= j < old(buf).bytes().len() && j != self.index ==> final(buf).bytes()[j] == old(buf).bytes()[j],
    {
        buf.set_byte(self.index, val);
    }
}

/// Handle to an allocated `u16` spot in a `DTlsBuffer`: a single-use
/// capability, consumed by value when redeemed.
#[must_use]
pub struct AllocU16Handle {
    /// The byte offset reserved for the value.
    pub index: usize,
}

impl AllocU16Handle {
    /// Set the value, consuming the handle. Exactly the two reserved bytes
    /// are overwritten; all other bytes are untouched.
    pub fn set<B: DTlsBuffer>(self, buf: &mut B, val: u16)
        requires
            self.index + 2 <= old(buf).bytes().len(),
        ensures
            final(buf).spec_capacity() == old(buf).spec_capacity(),
            final(buf).bytes().len() == old(buf).bytes().len(),
            final(buf).bytes() == old(buf).bytes().subrange(0, self.index as int) + u16_be_bytes(
                val,
            ) + old(buf).bytes().subrange(self.index + 2, old(buf).bytes().len() as int),
            forall|j: int|
                0 <= j < old(buf).bytes().len() && !(self.index <= j < self.index + 2) ==> final(buf).bytes()[j] == old(buf).bytes()[j],
    {
        let n = buf.len();
        let b = u16_to_be(val);
        buf.set_byte(self.index, b[0]);
        buf.set_byte(self.index + 1, b[1]);
        proof {
            assert(buf.bytes() =~= old(buf).bytes().subrange(0, self.index as int) + u16_be_bytes(
                val,
            ) + old(buf).bytes().subrange(self.index + 2, old(buf).bytes().len() as int));
        }
    }
}

/// Handle to an allocated `u24` spot in a `DTlsBuffer`: a single-use
/// capability, consumed by value when redeemed.
#[must_use]
pub struct AllocU24Handle {
    /// The byte offset reserved for the value.
    pub index: usize,
}

impl AllocU24Handle {
    /// Set the value, consuming the handle. Exactly the three reserved
    /// bytes are overwritten; all other bytes are untouched.
    pub fn set<B: DTlsBuffer>(self, buf: &mut B, val: U24)
        requires
            self.index + 3 <= old(buf).bytes().len(),
        ensures
            final(buf).spec_capacity() == old(buf).spec_capacity(),
            final(buf).bytes().len() == old(buf).bytes().len(),
            final(buf).bytes() == old(buf).bytes().subrange(0, self.index as int) + u24_be_bytes(
                val.spec_value(),
            ) + old(buf).bytes().subrange(self.index + 3, old(buf).bytes().len() as int),
            forall|j: int|
                0 <= j < old(buf).bytes().len() && !(self.index <= j < self.index + 3) ==> final(buf).bytes()[j] == old(buf).bytes()[j],
    {
        let n = buf.len();
        let b = val.to_be_bytes();
        buf.set_byte(self.index, b[0]);
        buf.set_byte(self.index + 1, b[1]);
        buf.set_byte(self.index + 2, b[2]);
        proof {
            assert(buf.bytes() =~= old(buf).bytes().subrange(0, self.index as int) + u24_be_bytes(
                val.spec_value(),
            ) + old(buf).bytes().subrange(self.index + 3, old(buf).bytes().len() as int));
        }
    }
}

/// Handle to an allocated `u48` spot in a `DTlsBuffer`: a single-use
/// capability, consumed by value when redeemed.
#[must_use]
pub struct AllocU48Handle {
    /// The byte offset reserved for the value.
    pub index: usize,
}

impl AllocU48Handle {
    /// Set the value, consuming the handle. Exactly the six reserved bytes
    /// are overwritten; all other bytes are untouched.
    pub fn set<B: DTlsBuffer>(self, buf: &mut B, val: U48)
        requires
            self.index + 6 <= old(buf).bytes().len(),
        ensures
            final(buf).spec_capacity() == old(buf).spec_capacity(),
            final(buf).bytes().len() == old(buf).bytes().len(),
            final(buf).bytes() == old(buf).bytes().subrange(0, self.index as int) + u48_be_bytes(
                val.spec_value(),
            ) + old(buf).bytes().subrange(self.index + 6, old(buf).bytes().len() as int),
            forall|j: int|
                0 <= j < old(buf).bytes().len() && !(self.index <= j < self.index + 6) ==> final(buf).bytes()[j] == old(buf).bytes()[j],
    {
        let n = buf.len();
        let b = val.to_be_bytes();
        buf.set_byte(self.index, b[0]);
        buf.set_byte(self.index + 1, b[1]);
        buf.set_byte(self.index + 2, b[2]);
        buf.set_byte(self.index + 3, b[3]);
        buf.set_byte(self.index + 4, b[4]);
        buf.set_byte(self.index + 5, b[5]);
        proof {
            assert(buf.bytes() =~= old(buf).bytes().subrange(0, self.index as int) + u48_be_bytes(
                val.spec_value(),
            ) + old(buf).bytes().subrange(self.index + 6, old(buf).bytes().len() as int));
        }
    }
}

/// Handle to an allocated slice in a `DTlsBuffer`: a single-use capability,
/// consumed by value when redeemed.
#[must_use]
pub struct AllocSliceHandle {
    /// The byte offset reserved for the slice.
    pub index: usize,
    /// The length, in bytes, of the reserved region.
    pub len: usize,
}

impl AllocSliceHandle {
    /// Set the value, consuming the handle. Exactly the reserved byte range
    /// is overwritten; all other bytes are untouched.
    pub fn set<B: DTlsBuffer>(self, buf: &mut B, val: &[u8])
        requires
            val@.len() == self.len,
            self.index + self.len <= old(buf).bytes().len(),
        ensures
            final(buf).spec_capacity() == old(buf).spec_capacity(),
            final(buf).bytes().len() == old(buf).bytes().len(),
            final(buf).bytes() == old(buf).bytes().subrange(0, self.index as int) + val@ + old(buf).bytes().subrange(self.index + self.len, old(buf).bytes().len() as int),
            forall|j: int|
                0 <= j < old(buf).bytes().len() && !(self.index <= j < self.index + self.len)
                    ==> final(buf).bytes()[j] == old(buf).bytes()[j],
    {
        let n = buf.len();
        let mut i: usize = 0;
        while i < self.len
            invariant
                i <= self.len,
                val@.len() == self.len,
                self.index + self.len <= old(buf).bytes().len(),
                old(buf).bytes().len() <= n as int + 1,
                n == old(buf).bytes().len(),
                buf.spec_capacity() == old(buf).spec_capacity(),
                buf.bytes().len() == old(buf).bytes().len(),
                forall|j: int|
                    0 <= j < old(buf).bytes().len() && !(self.index <= j < self.index + i)
                        ==> buf.bytes()[j] == old(buf).bytes()[j],
                forall|j: int| 0 <= j < i ==> buf.bytes()[self.index + j] == val@[j],
            decreases self.len - i,
        {
            buf.set_byte(self.index + i, val[i]);
            i = i + 1;
        }
        proof {
            assert(buf.bytes() =~= old(buf).bytes().subrange(0, self.index as int) + val@ + old(buf).bytes().subrange(self.index + self.len, old(buf).bytes().len() as int));
        }
    }
}

/// One buffer operation, for stating laws about operation sequences.
pub enum BufOp {
    /// Push a byte.
    PushU8(u8),
    /// Push a `u16` in big-endian.
    PushU16(u16),
    /// Push a 24-bit value in big-endian.
    PushU24(u32),
    /// Push a `u32` in big-endian.
    PushU32(u32),
    /// Push a 48-bit value in big-endian.
    PushU48(u64),
    /// Extend from a byte sequence.
    Extend(Seq<u8>),
    /// Reserve one byte.
    AllocU8,
    /// Reserve two bytes.
    AllocU16,
    /// Reserve three bytes.
    AllocU24,
    /// Reserve six bytes.
    AllocU48,
    /// Reserve a slice of the given length.
    AllocSlice(nat),
}

/// The byte width one operation writes or reserves.
pub open spec fn op_width(op: BufOp) -> nat {
    match op {
        BufOp::PushU8(_) => 1,
        BufOp::PushU16(_) => 2,
        BufOp::PushU24(_) => 3,
        BufOp::PushU32(_) => 4,
        BufOp::PushU48(_) => 6,
        BufOp::Extend(s) => s.len(),
        BufOp::AllocU8 => 1,
        BufOp::AllocU16 => 2,
        BufOp::AllocU24 => 3,
        BufOp::AllocU48 => 6,
        BufOp::AllocSlice(n) => n,
    }
}

/// The bytes one operation appends, as the operations' contracts state
/// them.
pub open spec fn op_bytes(op: BufOp) -> Seq<u8> {
    match op {
        BufOp::PushU8(v) => seq![v],
        BufOp::PushU16(v) => u16_be_bytes(v),
        BufOp::PushU24(v) => u24_be_bytes(v),
        BufOp::PushU32(v) => u32_be_bytes(v),
        BufOp::PushU48(v) => u48_be_bytes(v),
        BufOp::Extend(s) => s,
        BufOp::AllocU8 => zero_bytes(1),
        BufOp::AllocU16 => zero_bytes(2),
        BufOp::AllocU24 => zero_bytes(3),
        BufOp::AllocU48 => zero_bytes(6),
        BufOp::AllocSlice(n) => zero_bytes(n),
    }
}

/// The cumulative byte width of a sequence of operations.
pub open spec fn ops_width(ops: Seq<BufOp>) -> nat
    decreases ops.len(),
{
    if ops.len() == 0 {
        0
    } else {
        ops_width(ops.drop_last()) + op_width(ops.last())
    }
}

/// The buffer contents after running a sequence of operations, all of them
/// succeeding.
pub open spec fn run_ops(init: Seq<u8>, ops: Seq<BufOp>) -> Seq<u8>
    decreases ops.len(),
{
    if ops.len() == 0 {
        init
    } else {
        run_ops(init, ops.drop_last()) + op_bytes(ops.last())
    }
}

/// Each operation appends exactly as many bytes as its width.
pub proof fn lemma_op_bytes_width(op: BufOp)
    ensures
        op_bytes(op).len() == op_width(op),
{
}

/// Running a sequence of operations grows the buffer by exactly the
/// cumulative width of the sequence.
pub proof fn lemma_run_ops_len(init: Seq<u8>, ops: Seq<BufOp>)
    ensures
        run_ops(init, ops).len() == init.len() + ops_width(ops),
    decreases ops.len(),
{
    if ops.len() > 0 {
        lemma_run_ops_len(init, ops.drop_last());
    }
}

/// The cumulative width of a prefix, extended by one operation.
pub proof fn lemma_ops_width_take(ops: Seq<BufOp>, i: int)
    requires
        0 <= i < ops.len(),
    ensures
        ops_width(ops.take(i + 1)) == ops_width(ops.take(i)) + op_width(ops[i]),
{
    assert(ops.take(i + 1).drop_last() =~= ops.take(i));
    assert(ops.take(i + 1).last() == ops[i]);
}

/// The cumulative width of a prefix never exceeds that of the whole
/// sequence.
pub proof fn lemma_ops_width_prefix(ops: Seq<BufOp>, i: int)
    requires
        0 <= i <= ops.len(),
    ensures
        ops_width(ops.take(i)) <= ops_width(ops),
    decreases ops.len() - i,
{
    if i == ops.len() {
        assert(ops.take(i) =~= ops);
    } else {
        lemma_ops_width_take(ops, i);
        lemma_ops_width_prefix(ops, i + 1);
    }
}

/// Law: for any sequence of push and alloc operations whose cumulative
/// byte width fits within the capacity remaining after `init`, every
/// operation meets the success condition of its contract — the length on
/// its entry plus its width stays within capacity — and the final length
/// equals the initial length plus the sum of the widths.
pub proof fn lemma_ops_within_capacity(init: Seq<u8>, ops: Seq<BufOp>, cap: nat)
    requires
        init.len() + ops_width(ops) <= cap,
    ensures
        run_ops(init, ops).len() == init.len() + ops_width(ops),
        forall|i: int|
            0 <= i < ops.len() ==> #[trigger] run_ops(init, ops.take(i)).len() + op_width(ops[i])
                <= cap,
{
    lemma_run_ops_len(init, ops);
    assert forall|i: int| 0 <= i < ops.len() implies #[trigger] run_ops(init, ops.take(i)).len()
        + op_width(ops[i]) <= cap by {
        lemma_run_ops_len(init, ops.take(i));
        lemma_ops_width_take(ops, i);
        lemma_ops_width_prefix(ops, i + 1);
    }
}

} // verus!

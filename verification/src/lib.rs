//! A DTLS 1.3 (PSK mode) wire-format encoding core for fixed-capacity buffers.
//!
//! The heart of the crate is a fixed-capacity byte buffer with a
//! "reserve now, patch later" handle mechanism: length-prefixed binary
//! protocols need header fields (record length, handshake length, the
//! binder region of a ClientHello) whose values are only known after the
//! nested content that follows them has been produced, yet the output
//! buffer is written once, forward only, with no reallocation.
//!
//! Layered on top of the buffer are the DTLS record envelope, the
//! handshake-message envelope, and the ClientHello body and extension
//! encoders. Every encoder carries a contract that pins down the exact
//! bytes it appends.

use vstd::prelude::*;

pub mod buffer;
pub mod cipher_suites;
pub mod extensions;
pub mod handshake;
pub mod integers;
pub mod record;
pub mod session;

verus! {

/// Errors surfaced by the encoding core.
///
/// Every encode operation is fallible: it either commits all of its bytes
/// or reports one of these errors. A failure aborts the record under
/// construction; bytes committed by earlier successful operations are
/// retained.
#[derive(Clone, Copy, Debug, PartialEq, Eq, Structural)]
pub enum DTlsError {
    /// The backing buffer ran out of space. The failing operation wrote
    /// nothing; the caller may retry the record with a larger buffer or a
    /// smaller payload.
    CapacityExceeded,
    /// A value does not fit the fixed-width wire field it is destined for.
    /// This is a logic error upstream: the caller must not attempt to
    /// encode an out-of-range value.
    RangeExceeded,
}

} // verus!

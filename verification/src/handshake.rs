//! Handshake-message framing and the ClientHello body encoder.
//!
//! A handshake message travels in an envelope of message type, 24-bit total
//! body length, 16-bit message sequence number, 24-bit fragment offset and
//! 24-bit fragment length. Only the unfragmented case is encoded here:
//! `fragment_offset` is always 0 and `fragment_length` always equals the
//! body length. Multi-fragment emission and reassembly are a declared
//! non-goal of this design, not an oversight.

use crate::buffer::{retains_prefix, zero_bytes, AllocSliceHandle, DTlsBuffer};
use crate::extensions::{
    binder_handle_ok, exts_alloc_ok, exts_bytes, exts_wf, exts_wire_len, lemma_exts_bytes_len,
    lemma_exts_prefix, lemma_exts_take, psk_count, ClientExtensions,
};
use crate::integers::{u16_be_bytes, u24_be_bytes, U24};
use crate::record::legacy_version_bytes;
use crate::DTlsError;
use vstd::prelude::*;

verus! {

/// TLS handshake message types, with their wire discriminants kept in a
/// separate lookup ([`HandshakeType::spec_byte`]): the message that carries
/// a body does so in [`ClientHandshake`].
#[derive(Copy, Clone, Debug, PartialEq, Eq, Structural)]
pub enum HandshakeType {
    /// `client_hello`.
    ClientHello,
    /// `server_hello`.
    ServerHello,
    /// `new_session_ticket`.
    NewSessionTicket,
    /// `end_of_early_data`.
    EndOfEarlyData,
    /// `encrypted_extensions`.
    EncryptedExtensions,
    /// `request_connection_id`.
    RequestConnectionID,
    /// `new_connection_id`.
    NewConnectionID,
    /// `certificate`.
    Certificate,
    /// `certificate_request`.
    CertificateRequest,
    /// `certificate_verify`.
    CertificateVerify,
    /// `finished`.
    Finished,
    /// `key_update`.
    KeyUpdate,
    /// `message_hash`.
    MessageHash,
}

impl HandshakeType {
    /// The message type's wire discriminant.
    pub open spec fn spec_byte(self) -> u8 {
        match self {
            HandshakeType::ClientHello => 1,
            HandshakeType::ServerHello => 2,
            HandshakeType::NewSessionTicket => 4,
            HandshakeType::EndOfEarlyData => 5,
            HandshakeType::EncryptedExtensions => 8,
            HandshakeType::RequestConnectionID => 9,
            HandshakeType::NewConnectionID => 10,
            HandshakeType::Certificate => 11,
            HandshakeType::CertificateRequest => 13,
            HandshakeType::CertificateVerify => 15,
            HandshakeType::Finished => 20,
            HandshakeType::KeyUpdate => 24,
            HandshakeType::MessageHash => 254,
        }
    }

    /// The message type's wire discriminant.
    pub fn byte(self) -> (r: u8)
        ensures
            r == self.spec_byte(),
    {
        match self {
            HandshakeType::ClientHello => 1,
            HandshakeType::ServerHello => 2,
            HandshakeType::NewSessionTicket => 4,
            HandshakeType::EndOfEarlyData => 5,
            HandshakeType::EncryptedExtensions => 8,
            HandshakeType::RequestConnectionID => 9,
            HandshakeType::NewConnectionID => 10,
            HandshakeType::Certificate => 11,
            HandshakeType::CertificateRequest => 13,
            HandshakeType::CertificateVerify => 15,
            HandshakeType::Finished => 20,
            HandshakeType::KeyUpdate => 24,
            HandshakeType::MessageHash => 254,
        }
    }
}

/// The Finished handshake message: verify data proving possession of the
/// handshake keys. The hash length is fixed by the cipher suite.
#[derive(Clone, Debug, PartialEq)]
pub struct Finished<const HASH_LEN: usize> {
    /// The verify data.
    pub verify: [u8; HASH_LEN],
}

/// ClientHello: a 32-byte random value and the list of extensions. The
/// public value offered in a `key_share` extension lives in that extension;
/// the fixed fields never hold key material directly.
#[derive(Clone, Debug, PartialEq)]
pub struct ClientHello {
    /// The 32-byte client random.
    pub random: [u8; 32],
    /// The extensions, encoded in order after the fixed fields.
    pub extensions: Vec<ClientExtensions>,
}

impl ClientHello {
    /// Assemble a ClientHello from its random value and its extensions.
    pub fn new(random: [u8; 32], extensions: Vec<ClientExtensions>) -> (r: Self)
        ensures
            r.random == random,
            r.extensions == extensions,
    {
        Self { random, extensions }
    }

    /// All extensions are well formed and the extensions block fits its
    /// 2-byte length field.
    pub open spec fn wf(&self) -> bool {
        exts_wf(self.extensions@) && exts_wire_len(self.extensions@) <= 0xFFFF
    }

    /// Body width: version, random, empty session id, compression methods,
    /// extensions-block length, extensions.
    pub open spec fn body_len(&self) -> int {
        39 + exts_wire_len(self.extensions@)
    }

    /// Body form: legacy version, the 32 random bytes, a zero session-id
    /// length, the compression methods `[1, 0]` (one method, null), then
    /// the length-prefixed extensions block.
    pub open spec fn body_bytes(&self) -> Seq<u8> {
        legacy_version_bytes() + self.random@ + seq![0u8] + seq![1u8, 0u8] + u16_be_bytes(
            exts_wire_len(self.extensions@) as u16,
        ) + exts_bytes(self.extensions@)
    }

    /// Encode the ClientHello body. Returns the handle to the binder
    /// region if a `pre_shared_key` extension reserved one: binders are
    /// computed over everything written so far, so the caller redeems the
    /// handle after this body is serialized.
    pub fn encode<B: DTlsBuffer>(&self, buf: &mut B) -> (r: Result<
        Option<AllocSliceHandle>,
        DTlsError,
    >)
        requires
            exts_alloc_ok(self.extensions@),
            psk_count(self.extensions@) <= 1,
        ensures
            final(buf).spec_capacity() == old(buf).spec_capacity(),
            r is Ok <==> self.wf() && old(buf).bytes().len() + self.body_len() <= old(
                buf,
            ).spec_capacity(),
            r matches Ok(h) ==> final(buf).bytes() == old(buf).bytes() + self.body_bytes() && (
            match h {
                Some(hh) => psk_count(self.extensions@) == 1 && binder_handle_ok(
                    hh,
                    old(buf).bytes().len() + 39 as int,
                    self.extensions@,
                ) && hh.index + hh.len <= final(buf).bytes().len(),
                None => psk_count(self.extensions@) == 0,
            }),
            r matches Err(e) ==> retains_prefix(final(buf).bytes(), old(buf).bytes()) && (e
                == DTlsError::RangeExceeded ==> !self.wf()) && (e == DTlsError::CapacityExceeded
                ==> old(buf).bytes().len() + self.body_len() > old(buf).spec_capacity()),
    {
        proof {
            lemma_exts_bytes_len(self.extensions@);
        }
        let version = [0xFEu8, 0xFDu8];
        buf.extend_from_slice(version.as_slice())?;
        buf.extend_from_slice(self.random.as_slice())?;
        // Session ID: empty, so a single length byte of 0.
        buf.push_u8(0)?;
        // Compression methods: one method, null.
        buf.push_u8(1)?;
        buf.push_u8(0)?;
        // Extensions block, its length patched once the block is written.
        let ext_len_handle = buf.alloc_u16()?;
        let exts_start = buf.len();
        let ghost head = legacy_version_bytes() + self.random@ + seq![0u8] + seq![1u8, 0u8]
            + zero_bytes(2);
        proof {
            assert(buf.bytes() =~= old(buf).bytes() + head);
        }
        let n = self.extensions.len();
        let ghost exts = self.extensions@;
        let mut binders: Option<AllocSliceHandle> = None;
        let mut k: usize = 0;
        while k < n
            invariant
                k <= n,
                n == exts.len(),
                exts == self.extensions@,
                exts_alloc_ok(exts),
                psk_count(exts) <= 1,
                exts_start == old(buf).bytes().len() + 39 as int,
                head.len() == 39,
                buf.spec_capacity() == old(buf).spec_capacity(),
                old(buf).bytes().len() + 39 + exts_wire_len(exts.take(k as int))
                    <= buf.spec_capacity(),
                buf.bytes() == old(buf).bytes() + head + exts_bytes(exts.take(k as int)),
                forall|j: int| 0 <= j < k ==> (#[trigger] exts[j]).wf(),
                match binders {
                    None => psk_count(exts.take(k as int)) == 0,
                    Some(hh) => psk_count(exts.take(k as int)) == 1 && binder_handle_ok(
                        hh,
                        exts_start as int,
                        exts,
                    ) && hh.index + hh.len <= buf.bytes().len(),
                },
            decreases n - k,
        {
            proof {
                lemma_exts_take(exts, k as int);
                lemma_exts_prefix(exts, k as int + 1);
                lemma_exts_bytes_len(exts.take(k as int));
                exts[k as int].lemma_body();
            }
            let ext = &self.extensions[k];
            let h = match ext.encode(buf) {
                Ok(h) => h,
                Err(e) => {
                    proof {
                        if e == DTlsError::RangeExceeded {
                            assert(!exts_wf(exts));
                        }
                    }
                    return Err(e);
                },
            };
            match h {
                Some(hh) => {
                    proof {
                        assert(binders is None);
                        assert(exts[k as int] matches ClientExtensions::PreSharedKey(p) && hh.len
                            == p.binders_len() && hh.index == exts_start + exts_wire_len(
                            exts.take(k as int),
                        ) + 6 + crate::extensions::idents_wire_len(p.identities@));
                        assert(binder_handle_ok(hh, exts_start as int, exts));
                    }
                    binders = Some(hh);
                },
                None => {},
            }
            proof {
                assert(buf.bytes() =~= old(buf).bytes() + head + exts_bytes(exts.take(k as int + 1)));
            }
            k = k + 1;
        }
        proof {
            assert(exts.take(n as int) =~= exts);
        }
        let exts_end = buf.len();
        let block_len = exts_end - exts_start;
        if block_len > 0xFFFF {
            return Err(DTlsError::RangeExceeded);
        }
        ext_len_handle.set(buf, block_len as u16);
        proof {
            assert(final(buf).bytes() =~= old(buf).bytes() + self.body_bytes());
        }
        Ok(binders)
    }
}

/// A handshake message the client sends: the tag and its body together.
#[derive(Clone, Debug, PartialEq)]
pub enum ClientHandshake {
    /// A ClientHello body.
    ClientHello(ClientHello),
    /// A Finished body; the hash width is fixed by the cipher suite in use.
    Finished(Finished<64>),
}

impl ClientHandshake {
    /// The wire tag of the message.
    pub open spec fn spec_handshake_type(&self) -> HandshakeType {
        match self {
            ClientHandshake::ClientHello(_) => HandshakeType::ClientHello,
            ClientHandshake::Finished(_) => HandshakeType::Finished,
        }
    }

    fn handshake_type(&self) -> (r: HandshakeType)
        ensures
            r == self.spec_handshake_type(),
    {
        match self {
            ClientHandshake::ClientHello(_) => HandshakeType::ClientHello,
            ClientHandshake::Finished(_) => HandshakeType::Finished,
        }
    }

    /// The width of the message body.
    pub open spec fn body_len(&self) -> int {
        match self {
            ClientHandshake::ClientHello(ch) => ch.body_len(),
            ClientHandshake::Finished(_) => 64,
        }
    }

    /// The bytes of the message body.
    pub open spec fn body_bytes(&self) -> Seq<u8> {
        match self {
            ClientHandshake::ClientHello(ch) => ch.body_bytes(),
            ClientHandshake::Finished(f) => f.verify@,
        }
    }

    /// The body is well formed.
    pub open spec fn wf(&self) -> bool {
        match self {
            ClientHandshake::ClientHello(ch) => ch.wf(),
            ClientHandshake::Finished(_) => true,
        }
    }

    /// The handle discipline holds: any binder region can be sized in a
    /// `usize`, and at most one extension reserves one.
    pub open spec fn encodable(&self) -> bool {
        match self {
            ClientHandshake::ClientHello(ch) => exts_alloc_ok(ch.extensions@) && psk_count(
                ch.extensions@,
            ) <= 1,
            ClientHandshake::Finished(_) => true,
        }
    }

    /// How many binder regions the message reserves.
    pub open spec fn spec_psk_count(&self) -> int {
        match self {
            ClientHandshake::ClientHello(ch) => psk_count(ch.extensions@),
            ClientHandshake::Finished(_) => 0,
        }
    }
}

/// The full wire width of a handshake message: the 12-byte envelope and
/// the body.
pub open spec fn handshake_wire_len(body: ClientHandshake) -> int {
    12 + body.body_len()
}

/// The wire form of a handshake message: message type, 24-bit body length,
/// message sequence number, fragment offset 0, fragment length equal to
/// the body length, then the body.
pub open spec fn handshake_wire_bytes(message_seq: u16, body: ClientHandshake) -> Seq<u8> {
    seq![body.spec_handshake_type().spec_byte()] + u24_be_bytes(body.body_len() as u32)
        + u16_be_bytes(message_seq) + u24_be_bytes(0) + u24_be_bytes(body.body_len() as u32)
        + body.body_bytes()
}

/// The body is well formed and fits the envelope's 24-bit length fields.
pub open spec fn handshake_wf(body: ClientHandshake) -> bool {
    body.wf() && body.body_len() <= 0xFFFFFF
}

/// Proof that a handshake message's wire form is exactly as long as its
/// stated width, and that the body width is never negative.
pub proof fn lemma_handshake_wire(message_seq: u16, body: ClientHandshake)
    ensures
        body.body_bytes().len() == body.body_len(),
        body.body_len() >= 0,
        handshake_wire_bytes(message_seq, body).len() == handshake_wire_len(body),
{
    match body {
        ClientHandshake::ClientHello(ch) => lemma_exts_bytes_len(ch.extensions@),
        ClientHandshake::Finished(_) => (),
    }
}

/// Encode one handshake message: the envelope, with both 24-bit length
/// fields patched once the body is written, around the body itself.
pub(crate) fn encode_handshake<B: DTlsBuffer>(
    message_seq: u16,
    body: &ClientHandshake,
    buf: &mut B,
) -> (r: Result<Option<AllocSliceHandle>, DTlsError>)
    requires
        body.encodable(),
    ensures
        final(buf).spec_capacity() == old(buf).spec_capacity(),
        r is Ok <==> handshake_wf(*body) && old(buf).bytes().len() + handshake_wire_len(*body)
            <= old(buf).spec_capacity(),
        r matches Ok(h) ==> final(buf).bytes() == old(buf).bytes() + handshake_wire_bytes(
            message_seq,
            *body,
        ) && (match h {
            Some(hh) => body matches ClientHandshake::ClientHello(ch) && psk_count(ch.extensions@)
                == 1 && binder_handle_ok(hh, old(buf).bytes().len() + 51 as int, ch.extensions@)
                && hh.index + hh.len <= final(buf).bytes().len(),
            None => body.spec_psk_count() == 0,
        }),
        r matches Err(e) ==> retains_prefix(final(buf).bytes(), old(buf).bytes()) && (e
            == DTlsError::RangeExceeded ==> !handshake_wf(*body)) && (e
            == DTlsError::CapacityExceeded ==> old(buf).bytes().len() + handshake_wire_len(*body)
            > old(buf).spec_capacity()),
{
    proof {
        lemma_handshake_wire(message_seq, *body);
    }
    buf.push_u8(body.handshake_type().byte())?;
    let len_handle = buf.alloc_u24()?;
    buf.push_u16_be(message_seq)?;
    // Fragment offset: always 0, only the unfragmented case exists here.
    buf.push_u24_be(U24::zero())?;
    let frag_len_handle = buf.alloc_u24()?;
    let body_start = buf.len();
    let binders = match body {
        ClientHandshake::ClientHello(ch) => ch.encode(buf)?,
        ClientHandshake::Finished(f) => {
            buf.extend_from_slice(f.verify.as_slice())?;
            None
        },
    };
    let body_end = buf.len();
    let blen = body_end - body_start;
    if blen > 0xFFFFFF {
        return Err(DTlsError::RangeExceeded);
    }
    let len24 = match U24::new(blen as u32) {
        Ok(v) => v,
        Err(e) => {
            proof {
                assert(false);
            }
            return Err(e);
        },
    };
    len_handle.set(buf, len24);
    let ghost pre2 = buf.bytes();
    frag_len_handle.set(buf, len24);
    proof {
        assert(pre2 =~= old(buf).bytes() + seq![body.spec_handshake_type().spec_byte()]
            + u24_be_bytes(body.body_len() as u32) + u16_be_bytes(message_seq) + u24_be_bytes(0)
            + zero_bytes(3) + body.body_bytes());
        assert(final(buf).bytes() =~= old(buf).bytes() + handshake_wire_bytes(message_seq, *body));
    }
    Ok(binders)
}

/// A handshake message with its envelope's message sequence number.
#[derive(Clone, Debug, PartialEq)]
pub struct Handshake {
    /// The message sequence number of the envelope.
    pub message_seq: u16,
    /// The message carried by the envelope.
    pub body: ClientHandshake,
}

impl Handshake {
    /// The full wire form of the message, envelope included.
    pub open spec fn wire_bytes(&self) -> Seq<u8> {
        handshake_wire_bytes(self.message_seq, self.body)
    }

    /// The full wire width of the message.
    pub open spec fn wire_len(&self) -> int {
        handshake_wire_len(self.body)
    }

    /// Encode the handshake message. Returns the binder-region handle if
    /// the body reserved one.
    pub fn encode<B: DTlsBuffer>(&self, buf: &mut B) -> (r: Result<
        Option<AllocSliceHandle>,
        DTlsError,
    >)
        requires
            self.body.encodable(),
        ensures
            final(buf).spec_capacity() == old(buf).spec_capacity(),
            r is Ok <==> handshake_wf(self.body) && old(buf).bytes().len() + self.wire_len() <= old(
                buf,
            ).spec_capacity(),
            r matches Ok(h) ==> final(buf).bytes() == old(buf).bytes() + self.wire_bytes() && (
            match h {
                Some(hh) => self.body matches ClientHandshake::ClientHello(ch) && psk_count(
                    ch.extensions@,
                ) == 1 && binder_handle_ok(hh, old(buf).bytes().len() + 51 as int, ch.extensions@)
                    && hh.index + hh.len <= final(buf).bytes().len(),
                None => self.body.spec_psk_count() == 0,
            }),
            r matches Err(e) ==> retains_prefix(final(buf).bytes(), old(buf).bytes()) && (e
                == DTlsError::RangeExceeded ==> !handshake_wf(self.body)) && (e
                == DTlsError::CapacityExceeded ==> old(buf).bytes().len() + self.wire_len() > old(
                buf,
            ).spec_capacity()),
    {
        encode_handshake(self.message_seq, &self.body, buf)
    }
}

/// Server-side handshake state: the server role is not implemented by this
/// crate yet.
#[derive(Clone, Debug, PartialEq, Eq, Structural)]
pub struct ServerHandshake {}

/// Encode a ServerHello. No server-side encoding is defined in this
/// design: the buffer is left exactly as it was.
pub fn server_hello<B: DTlsBuffer>(buf: &mut B)
    ensures
        final(buf).bytes() == old(buf).bytes(),
        final(buf).spec_capacity() == old(buf).spec_capacity(),
{
}

} // verus!

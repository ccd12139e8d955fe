//! DTLS record framing: the outer record envelope around a handshake
//! message or other payload.
//!
//! The record header carries the content type, the fixed legacy protocol
//! version, a 2-byte epoch fixed at 0 (no key-update or epoch-rollover
//! path is modeled), the 6-byte sequence number and a 2-byte length field
//! that is reserved first and patched once the payload is written.

use crate::buffer::{retains_prefix, zero_bytes, AllocSliceHandle, AllocU16Handle, DTlsBuffer};
use crate::extensions::{binder_handle_ok, psk_count};
use crate::handshake::{
    encode_handshake, handshake_wf, handshake_wire_bytes, handshake_wire_len,
    lemma_handshake_wire, ClientHandshake, ClientHello,
};
use crate::integers::{u16_be_bytes, u48_be_bytes, U48};
use crate::DTlsError;
use vstd::prelude::*;

verus! {

/// Protocol version definition.
pub type ProtocolVersion = [u8; 2];

/// The value used for the protocol version field in DTLS 1.3: the fixed
/// legacy constant `0xFE 0xFD`.
pub open spec fn legacy_version_bytes() -> Seq<u8> {
    seq![254u8, 253u8]
}

/// The value used for the protocol version field in DTLS 1.3.
pub fn legacy_dtls_version() -> (r: ProtocolVersion)
    ensures
        r@ == legacy_version_bytes(),
{
    let r = [254u8, 253u8];
    proof {
        assert(r@ =~= legacy_version_bytes());
    }
    r
}

/// Whether record-type hiding is in effect for an outgoing record.
#[derive(Copy, Clone, Debug, PartialEq, Eq, Structural, Hash)]
pub enum Encryption {
    /// The record is encrypted; its outer content type hides the kind.
    Enabled,
    /// The record travels in the clear; the content type names the kind.
    Disabled,
}

/// TLS content type. RFC 9147 - Appendix A.1.
#[derive(Copy, Clone, Debug, PartialEq, Eq, Structural)]
pub enum ContentType {
    /// `change_cipher_spec`.
    ChangeCipherSpec,
    /// `alert`.
    Alert,
    /// `handshake`.
    Handshake,
    /// `application_data`.
    ApplicationData,
    /// `heartbeat`.
    Heartbeat,
    /// `ack`.
    Ack,
}

impl ContentType {
    /// The content type's wire value.
    pub open spec fn spec_byte(self) -> u8 {
        match self {
            ContentType::ChangeCipherSpec => 20,
            ContentType::Alert => 21,
            ContentType::Handshake => 22,
            ContentType::ApplicationData => 23,
            ContentType::Heartbeat => 24,
            ContentType::Ack => 26,
        }
    }

    /// The content type's wire value.
    pub fn byte(self) -> (r: u8)
        ensures
            r == self.spec_byte(),
    {
        match self {
            ContentType::ChangeCipherSpec => 20,
            ContentType::Alert => 21,
            ContentType::Handshake => 22,
            ContentType::ApplicationData => 23,
            ContentType::Heartbeat => 24,
            ContentType::Ack => 26,
        }
    }

    /// The content type a wire value stands for: every classification a
    /// record can be tagged with, so the parser reads back whatever the
    /// record encoder emits.
    pub open spec fn spec_of(num: u8) -> Option<ContentType> {
        match num {
            20 => Some(ContentType::ChangeCipherSpec),
            21 => Some(ContentType::Alert),
            22 => Some(ContentType::Handshake),
            23 => Some(ContentType::ApplicationData),
            24 => Some(ContentType::Heartbeat),
            26 => Some(ContentType::Ack),
            _ => None,
        }
    }

    /// Parse a wire value back into a content type.
    pub fn of(num: u8) -> (r: Option<ContentType>)
        ensures
            r == ContentType::spec_of(num),
            r matches Some(t) ==> t.spec_byte() == num,
    {
        match num {
            20 => Some(ContentType::ChangeCipherSpec),
            21 => Some(ContentType::Alert),
            22 => Some(ContentType::Handshake),
            23 => Some(ContentType::ApplicationData),
            24 => Some(ContentType::Heartbeat),
            26 => Some(ContentType::Ack),
            _ => None,
        }
    }
}

/// The bytes of a record header before its length field: content type,
/// legacy version, epoch fixed at 0, sequence number.
pub open spec fn record_header_bytes(ct: ContentType, sequence_number: u64) -> Seq<u8> {
    seq![ct.spec_byte()] + legacy_version_bytes() + u16_be_bytes(0) + u48_be_bytes(sequence_number)
}

/// The DTLS plaintext record header.
pub struct DTlsPlaintextHeader {
    /// The outer classification of the record's payload.
    pub type_: ContentType,
    /// The record sequence number.
    pub sequence_number: U48,
}

impl DTlsPlaintextHeader {
    /// The header's bytes before the length field.
    pub open spec fn header_bytes(&self) -> Seq<u8> {
        record_header_bytes(self.type_, self.sequence_number.spec_value())
    }

    /// Encode the header: content type, legacy version, epoch 0, sequence
    /// number, then a reserved 2-byte length field whose handle is
    /// returned. The caller redeems it with the encoded length of
    /// everything written after it, once that length is known.
    pub fn encode<B: DTlsBuffer>(&self, buf: &mut B) -> (r: Result<AllocU16Handle, DTlsError>)
        ensures
            final(buf).spec_capacity() == old(buf).spec_capacity(),
            r is Ok <==> old(buf).bytes().len() + 13 <= old(buf).spec_capacity(),
            r matches Ok(h) ==> final(buf).bytes() == old(buf).bytes() + self.header_bytes()
                + zero_bytes(2) && h.index == old(buf).bytes().len() + 11,
            r matches Err(e) ==> retains_prefix(final(buf).bytes(), old(buf).bytes()) && e
                == DTlsError::CapacityExceeded && old(buf).bytes().len() + 13 > old(
                buf,
            ).spec_capacity(),
    {
        buf.push_u8(self.type_.byte())?;
        let version = [254u8, 253u8];
        buf.extend_from_slice(version.as_slice())?;
        // Epoch: fixed at 0 in this design.
        buf.push_u16_be(0)?;
        buf.push_u48_be(self.sequence_number)?;
        let h = buf.alloc_u16()?;
        proof {
            assert(final(buf).bytes() =~= old(buf).bytes() + self.header_bytes() + zero_bytes(2));
        }
        Ok(h)
    }
}

/// The inner plaintext structure of an encrypted record. Encryption is an
/// external collaborator; nothing of it is modeled here yet.
pub struct DTlsInnerPlaintext {}

/// The ciphertext record structure. Encryption is an external
/// collaborator; nothing of it is modeled here yet.
pub struct DTlsCiphertext {}

/// A record the client sends: a payload kind paired with the encryption
/// state that decides its outer content type.
pub enum ClientRecord {
    /// A handshake message.
    Handshake(ClientHandshake, Encryption),
    /// A change-cipher-spec payload (not modeled beyond its kind).
    ChangeCipherSpec((), Encryption),
    /// An alert payload (not modeled beyond its kind).
    Alert((), Encryption),
    /// A heartbeat payload (not modeled beyond its kind).
    Heartbeat((), Encryption),
    /// An ack payload (not modeled beyond its kind).
    Ack((), Encryption),
    /// Application data.
    ApplicationData(),
}

impl ClientRecord {
    /// The record's encryption state; application data is always sent on
    /// an encrypted connection.
    pub open spec fn spec_encryption(&self) -> Option<Encryption> {
        match self {
            ClientRecord::Handshake(_, e) => Some(*e),
            ClientRecord::ChangeCipherSpec(_, e) => Some(*e),
            ClientRecord::Alert(_, e) => Some(*e),
            ClientRecord::Heartbeat(_, e) => Some(*e),
            ClientRecord::Ack(_, e) => Some(*e),
            ClientRecord::ApplicationData() => None,
        }
    }

    /// The outer content type of the record. With encryption disabled the
    /// kind maps to itself; with encryption enabled every kind maps to
    /// `ApplicationData` — deliberate record-type hiding, not an omission.
    pub open spec fn spec_content_type(&self) -> ContentType {
        match self {
            ClientRecord::Handshake(_, Encryption::Disabled) => ContentType::Handshake,
            ClientRecord::ChangeCipherSpec(_, Encryption::Disabled) => ContentType::ChangeCipherSpec,
            ClientRecord::Alert(_, Encryption::Disabled) => ContentType::Alert,
            ClientRecord::Heartbeat(_, Encryption::Disabled) => ContentType::Heartbeat,
            ClientRecord::Ack(_, Encryption::Disabled) => ContentType::Ack,
            // All encrypted communication is marked as `ApplicationData`.
            ClientRecord::Handshake(_, Encryption::Enabled) => ContentType::ApplicationData,
            ClientRecord::ChangeCipherSpec(_, Encryption::Enabled) => ContentType::ApplicationData,
            ClientRecord::Alert(_, Encryption::Enabled) => ContentType::ApplicationData,
            ClientRecord::Heartbeat(_, Encryption::Enabled) => ContentType::ApplicationData,
            ClientRecord::Ack(_, Encryption::Enabled) => ContentType::ApplicationData,
            ClientRecord::ApplicationData() => ContentType::ApplicationData,
        }
    }

    fn content_type(&self) -> (r: ContentType)
        ensures
            r == self.spec_content_type(),
    {
        match self {
            ClientRecord::Handshake(_, Encryption::Disabled) => ContentType::Handshake,
            ClientRecord::ChangeCipherSpec(_, Encryption::Disabled) => ContentType::ChangeCipherSpec,
            ClientRecord::Alert(_, Encryption::Disabled) => ContentType::Alert,
            ClientRecord::Heartbeat(_, Encryption::Disabled) => ContentType::Heartbeat,
            ClientRecord::Ack(_, Encryption::Disabled) => ContentType::Ack,
            ClientRecord::Handshake(_, Encryption::Enabled) => ContentType::ApplicationData,
            ClientRecord::ChangeCipherSpec(_, Encryption::Enabled) => ContentType::ApplicationData,
            ClientRecord::Alert(_, Encryption::Enabled) => ContentType::ApplicationData,
            ClientRecord::Heartbeat(_, Encryption::Enabled) => ContentType::ApplicationData,
            ClientRecord::Ack(_, Encryption::Enabled) => ContentType::ApplicationData,
            ClientRecord::ApplicationData() => ContentType::ApplicationData,
        }
    }

    /// Create a client hello handshake record, sent in the clear as the
    /// first flight of a connection.
    pub fn client_hello(hello: ClientHello) -> (r: Self)
        ensures
            r == ClientRecord::Handshake(
                ClientHandshake::ClientHello(hello),
                Encryption::Disabled,
            ),
    {
        ClientRecord::Handshake(ClientHandshake::ClientHello(hello), Encryption::Disabled)
    }

    /// The width of the record's fragment: the handshake message for a
    /// handshake record; the other payload kinds are not modeled beyond
    /// their kind and carry no bytes.
    pub open spec fn fragment_len(&self) -> int {
        match self {
            ClientRecord::Handshake(hs, _) => handshake_wire_len(*hs),
            _ => 0,
        }
    }

    /// The bytes of the record's fragment.
    pub open spec fn fragment_bytes(&self) -> Seq<u8> {
        match self {
            ClientRecord::Handshake(hs, _) => handshake_wire_bytes(0, *hs),
            _ => Seq::empty(),
        }
    }

    /// The fragment is well formed and fits the record's 2-byte length
    /// field.
    pub open spec fn wf(&self) -> bool {
        match self {
            ClientRecord::Handshake(hs, _) => handshake_wf(*hs) && handshake_wire_len(*hs)
                <= 0xFFFF,
            _ => true,
        }
    }

    /// The handle discipline holds for the payload.
    pub open spec fn encodable(&self) -> bool {
        match self {
            ClientRecord::Handshake(hs, _) => hs.encodable(),
            _ => true,
        }
    }

    /// How many binder regions the record reserves.
    pub open spec fn spec_psk_count(&self) -> int {
        match self {
            ClientRecord::Handshake(hs, _) => hs.spec_psk_count(),
            _ => 0,
        }
    }

    /// The record's full wire width.
    pub open spec fn wire_len(&self) -> int {
        13 + self.fragment_len()
    }

    /// The record's full wire form: header, patched length, fragment.
    pub open spec fn wire_bytes(&self) -> Seq<u8> {
        record_header_bytes(self.spec_content_type(), 0) + u16_be_bytes(self.fragment_len() as u16)
            + self.fragment_bytes()
    }

    /// Encode the record into a buffer, with sequence number 0 (the first
    /// flight; the session layer owns later sequence numbers). Returns the
    /// binder-region handle if the payload reserved one; the caller redeems
    /// it with binders computed over everything written so far.
    pub fn encode<B: DTlsBuffer>(&self, buf: &mut B) -> (r: Result<
        Option<AllocSliceHandle>,
        DTlsError,
    >)
        requires
            self.encodable(),
        ensures
            final(buf).spec_capacity() == old(buf).spec_capacity(),
            r is Ok <==> self.wf() && old(buf).bytes().len() + self.wire_len() <= old(
                buf,
            ).spec_capacity(),
            r matches Ok(h) ==> final(buf).bytes() == old(buf).bytes() + self.wire_bytes() && (
            match h {
                Some(hh) => self matches ClientRecord::Handshake(hs, _) && hs matches
                    ClientHandshake::ClientHello(ch) && psk_count(ch.extensions@) == 1
                    && binder_handle_ok(hh, old(buf).bytes().len() + 64 as int, ch.extensions@)
                    && hh.index + hh.len <= final(buf).bytes().len(),
                None => self.spec_psk_count() == 0,
            }),
            r matches Err(e) ==> retains_prefix(final(buf).bytes(), old(buf).bytes()) && (e
                == DTlsError::RangeExceeded ==> !self.wf()) && (e == DTlsError::CapacityExceeded
                ==> old(buf).bytes().len() + self.wire_len() > old(buf).spec_capacity()),
    {
        proof {
            match self {
                ClientRecord::Handshake(hs, _) => lemma_handshake_wire(0, *hs),
                _ => (),
            }
        }
        let header = DTlsPlaintextHeader { type_: self.content_type(), sequence_number: U48::zero() };
        // Create the record header, with its length reserved.
        let len_handle = header.encode(buf)?;
        let frag_start = buf.len();
        // Fill in the fragment.
        let binders = match self {
            ClientRecord::Handshake(hs, _) => encode_handshake(0, hs, buf)?,
            _ => None,
        };
        let frag_end = buf.len();
        let flen = frag_end - frag_start;
        if flen > 0xFFFF {
            return Err(DTlsError::RangeExceeded);
        }
        len_handle.set(buf, flen as u16);
        proof {
            assert(final(buf).bytes() =~= old(buf).bytes() + self.wire_bytes());
        }
        Ok(binders)
    }
}

/// Law: with `Encryption::Enabled` a record always reports content type
/// `ApplicationData`, regardless of the underlying message kind; with
/// `Encryption::Disabled` each kind maps to its own content type; and
/// application data, which only travels encrypted, always reports
/// `ApplicationData`.
pub proof fn lemma_content_type_hiding(r: ClientRecord)
    ensures
        r.spec_encryption() == Some(Encryption::Enabled) ==> r.spec_content_type()
            == ContentType::ApplicationData,
        r.spec_encryption() == Some(Encryption::Disabled) ==> match r {
            ClientRecord::Handshake(..) => r.spec_content_type() == ContentType::Handshake,
            ClientRecord::ChangeCipherSpec(..) => r.spec_content_type()
                == ContentType::ChangeCipherSpec,
            ClientRecord::Alert(..) => r.spec_content_type() == ContentType::Alert,
            ClientRecord::Heartbeat(..) => r.spec_content_type() == ContentType::Heartbeat,
            ClientRecord::Ack(..) => r.spec_content_type() == ContentType::Ack,
            ClientRecord::ApplicationData() => true,
        },
        r.spec_encryption() is None ==> r.spec_content_type() == ContentType::ApplicationData,
{
}

} // verus!

//! ClientHello extension encoders.
//!
//! Extensions we support:
//!
//! * `psk_key_exchange_modes`
//! * `key_share`
//! * `pre_shared_key`
//!
//! The common shape on the wire is extension type (2 bytes) + extension
//! body length (2 bytes) + body. The enclosing type/length wrapper is the
//! responsibility of the extension-list encoder
//! ([`ClientExtensions::encode`]), not of each body encoder individually.
//! All this is defined in RFC 8446 (TLS 1.3) at page 37.

use crate::buffer::{retains_prefix, zero_bytes, AllocSliceHandle, DTlsBuffer};
use crate::integers::{u16_be_bytes, u32_be_bytes};
use crate::DTlsError;
use vstd::prelude::*;

verus! {

/// Heartbeat mode.
#[derive(Copy, Clone, Debug, PartialEq, Eq, Structural)]
pub enum HeartbeatMode {
    /// The peer is allowed to send heartbeat requests.
    PeerAllowedToSend,
    /// The peer is not allowed to send heartbeat requests.
    PeerNotAllowedToSend,
}

/// Pre-Shared Key Exchange Modes (RFC 8446, 4.2.9).
#[derive(Copy, Clone, Debug, PartialEq, Eq, Structural)]
pub enum PskKeyExchangeMode {
    /// PSK-only key establishment. In this mode, the server MUST NOT
    /// supply a `key_share` value.
    PskKe,
    /// PSK with (EC)DHE key establishment. In this mode, the client and
    /// server MUST supply `key_share` values.
    PskDheKe,
}

impl PskKeyExchangeMode {
    /// The wire value of the mode.
    pub open spec fn spec_byte(self) -> u8 {
        match self {
            PskKeyExchangeMode::PskKe => 0,
            PskKeyExchangeMode::PskDheKe => 1,
        }
    }

    /// The wire value of the mode.
    pub fn byte(self) -> (r: u8)
        ensures
            r == self.spec_byte(),
    {
        match self {
            PskKeyExchangeMode::PskKe => 0,
            PskKeyExchangeMode::PskDheKe => 1,
        }
    }
}

/// Named groups which the client supports for key exchange.
#[derive(Copy, Clone, Debug, PartialEq, Eq, Structural)]
pub enum NamedGroup {
    /// Elliptic curve group secp256r1.
    Secp256r1,
    /// Elliptic curve group secp384r1.
    Secp384r1,
    /// Elliptic curve group secp521r1.
    Secp521r1,
    /// Elliptic curve group x25519.
    X25519,
    /// Elliptic curve group x448.
    X448,
    /// Finite field group ffdhe2048.
    Ffdhe2048,
    /// Finite field group ffdhe3072.
    Ffdhe3072,
    /// Finite field group ffdhe4096.
    Ffdhe4096,
    /// Finite field group ffdhe6144.
    Ffdhe6144,
    /// Finite field group ffdhe8192.
    Ffdhe8192,
}

impl NamedGroup {
    /// The group's identifier in the TLS registry.
    pub open spec fn spec_code(self) -> u16 {
        match self {
            NamedGroup::Secp256r1 => 0x0017,
            NamedGroup::Secp384r1 => 0x0018,
            NamedGroup::Secp521r1 => 0x0019,
            NamedGroup::X25519 => 0x001D,
            NamedGroup::X448 => 0x001E,
            NamedGroup::Ffdhe2048 => 0x0100,
            NamedGroup::Ffdhe3072 => 0x0101,
            NamedGroup::Ffdhe4096 => 0x0102,
            NamedGroup::Ffdhe6144 => 0x0103,
            NamedGroup::Ffdhe8192 => 0x0104,
        }
    }

    /// The group identified by a registry value, if any.
    pub open spec fn spec_of(num: u16) -> Option<NamedGroup> {
        match num {
            0x0017 => Some(NamedGroup::Secp256r1),
            0x0018 => Some(NamedGroup::Secp384r1),
            0x0019 => Some(NamedGroup::Secp521r1),
            0x001D => Some(NamedGroup::X25519),
            0x001E => Some(NamedGroup::X448),
            0x0100 => Some(NamedGroup::Ffdhe2048),
            0x0101 => Some(NamedGroup::Ffdhe3072),
            0x0102 => Some(NamedGroup::Ffdhe4096),
            0x0103 => Some(NamedGroup::Ffdhe6144),
            0x0104 => Some(NamedGroup::Ffdhe8192),
            _ => None,
        }
    }

    /// The group's identifier in the TLS registry.
    pub fn code(self) -> (r: u16)
        ensures
            r == self.spec_code(),
    {
        match self {
            NamedGroup::Secp256r1 => 0x0017,
            NamedGroup::Secp384r1 => 0x0018,
            NamedGroup::Secp521r1 => 0x0019,
            NamedGroup::X25519 => 0x001D,
            NamedGroup::X448 => 0x001E,
            NamedGroup::Ffdhe2048 => 0x0100,
            NamedGroup::Ffdhe3072 => 0x0101,
            NamedGroup::Ffdhe4096 => 0x0102,
            NamedGroup::Ffdhe6144 => 0x0103,
            NamedGroup::Ffdhe8192 => 0x0104,
        }
    }

    /// Parse a registry value back into a group.
    pub fn of(num: u16) -> (r: Option<NamedGroup>)
        ensures
            r == NamedGroup::spec_of(num),
            r matches Some(g) ==> g.spec_code() == num,
    {
        match num {
            0x0017 => Some(NamedGroup::Secp256r1),
            0x0018 => Some(NamedGroup::Secp384r1),
            0x0019 => Some(NamedGroup::Secp521r1),
            0x001D => Some(NamedGroup::X25519),
            0x001E => Some(NamedGroup::X448),
            0x0100 => Some(NamedGroup::Ffdhe2048),
            0x0101 => Some(NamedGroup::Ffdhe3072),
            0x0102 => Some(NamedGroup::Ffdhe4096),
            0x0103 => Some(NamedGroup::Ffdhe6144),
            0x0104 => Some(NamedGroup::Ffdhe8192),
            _ => None,
        }
    }
}

/// TLS ExtensionType Values registry.
#[derive(Copy, Clone, Debug, PartialEq, Eq, Structural)]
pub enum ExtensionType {
    /// `server_name`.
    ServerName,
    /// `max_fragment_length`.
    MaxFragmentLength,
    /// `status_request`.
    StatusRequest,
    /// `supported_groups`.
    SupportedGroups,
    /// `signature_algorithms`.
    SignatureAlgorithms,
    /// `use_srtp`.
    UseSrtp,
    /// `heartbeat`.
    Heatbeat,
    /// `application_layer_protocol_negotiation`.
    ApplicationLayerProtocolNegotiation,
    /// `signed_certificate_timestamp`.
    SignedCertificateTimestamp,
    /// `client_certificate_type`.
    ClientCertificateType,
    /// `server_certificate_type`.
    ServerCertificateType,
    /// `padding`.
    Padding,
    /// `pre_shared_key`.
    PreSharedKey,
    /// `early_data`.
    EarlyData,
    /// `supported_versions`.
    SupportedVersions,
    /// `cookie`.
    Cookie,
    /// `psk_key_exchange_modes`.
    PskKeyExchangeModes,
    /// `certificate_authorities`.
    CertificateAuthorities,
    /// `oid_filters`.
    OidFilters,
    /// `post_handshake_auth`.
    PostHandshakeAuth,
    /// `signature_algorithms_cert`.
    SignatureAlgorithmsCert,
    /// `key_share`.
    KeyShare,
}

impl ExtensionType {
    /// The extension type's registry value.
    pub open spec fn spec_code(self) -> u16 {
        match self {
            ExtensionType::ServerName => 0,
            ExtensionType::MaxFragmentLength => 1,
            ExtensionType::StatusRequest => 5,
            ExtensionType::SupportedGroups => 10,
            ExtensionType::SignatureAlgorithms => 13,
            ExtensionType::UseSrtp => 14,
            ExtensionType::Heatbeat => 15,
            ExtensionType::ApplicationLayerProtocolNegotiation => 16,
            ExtensionType::SignedCertificateTimestamp => 18,
            ExtensionType::ClientCertificateType => 19,
            ExtensionType::ServerCertificateType => 20,
            ExtensionType::Padding => 21,
            ExtensionType::PreSharedKey => 41,
            ExtensionType::EarlyData => 42,
            ExtensionType::SupportedVersions => 43,
            ExtensionType::Cookie => 44,
            ExtensionType::PskKeyExchangeModes => 45,
            ExtensionType::CertificateAuthorities => 47,
            ExtensionType::OidFilters => 48,
            ExtensionType::PostHandshakeAuth => 49,
            ExtensionType::SignatureAlgorithmsCert => 50,
            ExtensionType::KeyShare => 51,
        }
    }

    /// The extension type's registry value.
    pub fn code(self) -> (r: u16)
        ensures
            r == self.spec_code(),
    {
        match self {
            ExtensionType::ServerName => 0,
            ExtensionType::MaxFragmentLength => 1,
            ExtensionType::StatusRequest => 5,
            ExtensionType::SupportedGroups => 10,
            ExtensionType::SignatureAlgorithms => 13,
            ExtensionType::UseSrtp => 14,
            ExtensionType::Heatbeat => 15,
            ExtensionType::ApplicationLayerProtocolNegotiation => 16,
            ExtensionType::SignedCertificateTimestamp => 18,
            ExtensionType::ClientCertificateType => 19,
            ExtensionType::ServerCertificateType => 20,
            ExtensionType::Padding => 21,
            ExtensionType::PreSharedKey => 41,
            ExtensionType::EarlyData => 42,
            ExtensionType::SupportedVersions => 43,
            ExtensionType::Cookie => 44,
            ExtensionType::PskKeyExchangeModes => 45,
            ExtensionType::CertificateAuthorities => 47,
            ExtensionType::OidFilters => 48,
            ExtensionType::PostHandshakeAuth => 49,
            ExtensionType::SignatureAlgorithmsCert => 50,
            ExtensionType::KeyShare => 51,
        }
    }
}

/// Pre-shared key identity payload.
#[derive(Clone, Debug, PartialEq)]
pub struct PskIdentity {
    /// A label for a key: a ticket, or a label for a pre-shared key
    /// established externally.
    pub identity: Vec<u8>,
}

impl PskIdentity {
    /// The identity fits its 2-byte length field.
    pub open spec fn wf(&self) -> bool {
        self.identity@.len() <= 0xFFFF
    }

    /// Wire width: 2-byte length, the identity, 4-byte ticket age.
    pub open spec fn wire_len(&self) -> int {
        6 + self.identity@.len() as int
    }

    /// Wire form: 2-byte length, the identity bytes, then a ticket age
    /// fixed at 0 — only externally provisioned PSKs are supported, so
    /// session-ticket ages are not tracked.
    pub open spec fn wire_bytes(&self) -> Seq<u8> {
        u16_be_bytes(self.identity@.len() as u16) + self.identity@ + u32_be_bytes(0)
    }

    /// Encode a pre-shared key identity into the buffer.
    pub fn encode<B: DTlsBuffer>(&self, buf: &mut B) -> (r: Result<(), DTlsError>)
        ensures
            final(buf).spec_capacity() == old(buf).spec_capacity(),
            r is Ok <==> self.wf() && old(buf).bytes().len() + self.wire_len() <= old(
                buf,
            ).spec_capacity(),
            r is Ok ==> final(buf).bytes() == old(buf).bytes() + self.wire_bytes(),
            r matches Err(e) ==> retains_prefix(final(buf).bytes(), old(buf).bytes()) && (e
                == DTlsError::RangeExceeded ==> !self.wf()) && (e == DTlsError::CapacityExceeded
                ==> old(buf).bytes().len() + self.wire_len() > old(buf).spec_capacity()),
    {
        if self.identity.len() > 0xFFFF {
            return Err(DTlsError::RangeExceeded);
        }
        // Encode length.
        buf.push_u16_be(self.identity.len() as u16)?;
        // Encode identity.
        buf.extend_from_slice(self.identity.as_slice())?;
        // Encode ticket age.
        buf.push_u32_be(0)?;
        proof {
            assert(final(buf).bytes() =~= old(buf).bytes() + self.wire_bytes());
        }
        Ok(())
    }
}

/// Pre-Shared Key Exchange Modes.
#[derive(Clone, Debug, PartialEq)]
pub struct PskKeyExchangeModes {
    /// The modes the client offers, in preference order.
    pub ke_modes: Vec<PskKeyExchangeMode>,
}

impl PskKeyExchangeModes {
    /// The mode count fits its 1-byte field.
    pub open spec fn wf(&self) -> bool {
        self.ke_modes@.len() <= 255
    }

    /// Body width: a count byte, then one byte per mode.
    pub open spec fn body_len(&self) -> int {
        1 + self.ke_modes@.len() as int
    }

    /// Body form: a count byte, then one byte per mode.
    pub open spec fn body_bytes(&self) -> Seq<u8> {
        seq![self.ke_modes@.len() as u8] + self.ke_modes@.map_values(
            |m: PskKeyExchangeMode| m.spec_byte(),
        )
    }

    /// Encode a `psk_key_exchange_modes` extension body.
    pub fn encode<B: DTlsBuffer>(&self, buf: &mut B) -> (r: Result<(), DTlsError>)
        ensures
            final(buf).spec_capacity() == old(buf).spec_capacity(),
            r is Ok <==> self.wf() && old(buf).bytes().len() + self.body_len() <= old(
                buf,
            ).spec_capacity(),
            r is Ok ==> final(buf).bytes() == old(buf).bytes() + self.body_bytes(),
            r matches Err(e) ==> retains_prefix(final(buf).bytes(), old(buf).bytes()) && (e
                == DTlsError::RangeExceeded ==> !self.wf()) && (e == DTlsError::CapacityExceeded
                ==> old(buf).bytes().len() + self.body_len() > old(buf).spec_capacity()),
    {
        let n = self.ke_modes.len();
        if n > 255 {
            return Err(DTlsError::RangeExceeded);
        }
        buf.push_u8(n as u8)?;
        let ghost modes = self.ke_modes@.map_values(|m: PskKeyExchangeMode| m.spec_byte());
        let mut k: usize = 0;
        while k < n
            invariant
                k <= n,
                n == self.ke_modes@.len(),
                n <= 255,
                modes == self.ke_modes@.map_values(|m: PskKeyExchangeMode| m.spec_byte()),
                buf.spec_capacity() == old(buf).spec_capacity(),
                old(buf).bytes().len() + 1 + k <= buf.spec_capacity(),
                buf.bytes() == old(buf).bytes() + seq![n as u8] + modes.take(k as int),
            decreases n - k,
        {
            let b = self.ke_modes[k].byte();
            match buf.push_u8(b) {
                Ok(()) => {},
                Err(e) => {
                    proof {
                        assert(retains_prefix(buf.bytes(), old(buf).bytes()));
                    }
                    return Err(e);
                },
            }
            proof {
                assert((old(buf).bytes() + seq![n as u8] + modes.take(k as int)).push(b)
                    =~= old(buf).bytes() + seq![n as u8] + modes.take(k as int + 1));
            }
            k = k + 1;
        }
        proof {
            assert(modes.take(n as int) =~= modes);
            assert(buf.bytes() =~= old(buf).bytes() + self.body_bytes());
        }
        Ok(())
    }
}

/// The `key_share` extension contains the endpoint's cryptographic
/// parameters: here a single key-share entry.
#[derive(Clone, Debug, PartialEq)]
pub struct KeyShareEntry {
    /// The named group the key belongs to.
    pub group: NamedGroup,
    /// The opaque public value for the group.
    pub opaque: Vec<u8>,
}

impl KeyShareEntry {
    /// The entry fits its 2-byte length fields.
    pub open spec fn wf(&self) -> bool {
        4 + self.opaque@.len() <= 0xFFFF
    }

    /// Body width: overall length, named group, public-value length, the
    /// public value.
    pub open spec fn body_len(&self) -> int {
        6 + self.opaque@.len() as int
    }

    /// Body form: 2-byte overall length, named-group identifier, 2-byte
    /// public-value length, the opaque public value.
    pub open spec fn body_bytes(&self) -> Seq<u8> {
        u16_be_bytes((4 + self.opaque@.len()) as u16) + u16_be_bytes(self.group.spec_code())
            + u16_be_bytes(self.opaque@.len() as u16) + self.opaque@
    }

    /// Encode a `key_share` extension body.
    pub fn encode<B: DTlsBuffer>(&self, buf: &mut B) -> (r: Result<(), DTlsError>)
        ensures
            final(buf).spec_capacity() == old(buf).spec_capacity(),
            r is Ok <==> self.wf() && old(buf).bytes().len() + self.body_len() <= old(
                buf,
            ).spec_capacity(),
            r is Ok ==> final(buf).bytes() == old(buf).bytes() + self.body_bytes(),
            r matches Err(e) ==> retains_prefix(final(buf).bytes(), old(buf).bytes()) && (e
                == DTlsError::RangeExceeded ==> !self.wf()) && (e == DTlsError::CapacityExceeded
                ==> old(buf).bytes().len() + self.body_len() > old(buf).spec_capacity()),
    {
        let olen = self.opaque.len();
        if olen > 0xFFFF - 4 {
            return Err(DTlsError::RangeExceeded);
        }
        buf.push_u16_be(4 + olen as u16)?;
        // One key share: group, then the length-prefixed public value.
        buf.push_u16_be(self.group.code())?;
        buf.push_u16_be(olen as u16)?;
        buf.extend_from_slice(self.opaque.as_slice())?;
        proof {
            assert(final(buf).bytes() =~= old(buf).bytes() + self.body_bytes());
        }
        Ok(())
    }
}

/// The cumulative wire width of a list of PSK identities.
pub open spec fn idents_wire_len(ids: Seq<PskIdentity>) -> int
    decreases ids.len(),
{
    if ids.len() == 0 {
        0
    } else {
        idents_wire_len(ids.drop_last()) + ids.last().wire_len()
    }
}

/// The concatenated wire form of a list of PSK identities.
pub open spec fn idents_bytes(ids: Seq<PskIdentity>) -> Seq<u8>
    decreases ids.len(),
{
    if ids.len() == 0 {
        Seq::empty()
    } else {
        idents_bytes(ids.drop_last()) + ids.last().wire_bytes()
    }
}

/// The concatenated wire form is exactly as long as the cumulative width.
pub proof fn lemma_idents_bytes_len(ids: Seq<PskIdentity>)
    ensures
        idents_bytes(ids).len() == idents_wire_len(ids),
        idents_wire_len(ids) >= 6 * ids.len(),
    decreases ids.len(),
{
    if ids.len() > 0 {
        lemma_idents_bytes_len(ids.drop_last());
    }
}

/// The cumulative width of a prefix, extended by one identity.
pub proof fn lemma_idents_wire_len_take(ids: Seq<PskIdentity>, i: int)
    requires
        0 <= i < ids.len(),
    ensures
        idents_wire_len(ids.take(i + 1)) == idents_wire_len(ids.take(i)) + ids[i].wire_len(),
        idents_bytes(ids.take(i + 1)) == idents_bytes(ids.take(i)) + ids[i].wire_bytes(),
{
    assert(ids.take(i + 1).drop_last() =~= ids.take(i));
    assert(ids.take(i + 1).last() == ids[i]);
}

/// A prefix of the identity list never gets wider than the whole list, and
/// every element's width is accounted for in the total.
pub proof fn lemma_idents_wire_len_prefix(ids: Seq<PskIdentity>, i: int)
    requires
        0 <= i <= ids.len(),
    ensures
        idents_wire_len(ids.take(i)) + 6 * (ids.len() - i) <= idents_wire_len(ids),
    decreases ids.len() - i,
{
    if i == ids.len() {
        assert(ids.take(i) =~= ids);
    } else {
        lemma_idents_wire_len_take(ids, i);
        lemma_idents_wire_len_prefix(ids, i + 1);
        assert(ids[i].wire_len() >= 6);
    }
}

/// The pre-shared keys the client can offer to use.
#[derive(Clone, Debug, PartialEq)]
pub struct OfferedPsks {
    /// List of identities that can be used. Ticket age is set to 0.
    pub identities: Vec<PskIdentity>,
    /// Size of the binder hash.
    pub hash_size: usize,
}

impl OfferedPsks {
    /// The width of the binder region reserved after the identities: one
    /// length byte plus the binder hash, per identity.
    pub open spec fn binders_len(&self) -> int {
        (1 + self.hash_size as int) * self.identities@.len()
    }

    /// The reserved binder region's width can be computed in a `usize`.
    pub open spec fn binders_fit_usize(&self) -> bool {
        (1 + self.hash_size as int) * self.identities@.len() <= usize::MAX as int
    }

    /// The identity block fits its 2-byte length field. (Each identity then
    /// fits its own length field too.)
    pub open spec fn wf(&self) -> bool {
        idents_wire_len(self.identities@) <= 0xFFFF
    }

    /// Body width: the identity-block length field, the identities, the
    /// binder region.
    pub open spec fn body_len(&self) -> int {
        2 + idents_wire_len(self.identities@) + self.binders_len()
    }

    /// Body form: 2-byte total identity-block length; per identity a
    /// 2-byte length, the identity bytes and a ticket age of 0; then the
    /// reserved, still zeroed binder region.
    pub open spec fn body_bytes(&self) -> Seq<u8> {
        u16_be_bytes(idents_wire_len(self.identities@) as u16) + idents_bytes(self.identities@)
            + zero_bytes(self.binders_len() as nat)
    }

    /// Encode the offered pre-shared keys. Returns the handle for the
    /// binder region: binder values are HMACs computed over everything
    /// written so far, so they can only be known — and the handle redeemed
    /// — after the rest of the ClientHello has been serialized.
    pub fn encode<B: DTlsBuffer>(&self, buf: &mut B) -> (r: Result<AllocSliceHandle, DTlsError>)
        requires
            self.binders_fit_usize(),
        ensures
            final(buf).spec_capacity() == old(buf).spec_capacity(),
            r is Ok <==> self.wf() && old(buf).bytes().len() + self.body_len() <= old(
                buf,
            ).spec_capacity(),
            r matches Ok(h) ==> final(buf).bytes() == old(buf).bytes() + self.body_bytes()
                && h.index == old(buf).bytes().len() + 2 + idents_wire_len(self.identities@)
                && h.len == self.binders_len(),
            r matches Err(e) ==> retains_prefix(final(buf).bytes(), old(buf).bytes()) && (e
                == DTlsError::RangeExceeded ==> !self.wf()) && (e == DTlsError::CapacityExceeded
                ==> old(buf).bytes().len() + self.body_len() > old(buf).spec_capacity()),
    {
        let n = self.identities.len();
        // Length of the identity block, with an early exit as soon as it
        // leaves the 2-byte field's range.
        let mut ident_len: usize = 0;
        let mut k: usize = 0;
        while k < n
            invariant
                k <= n,
                n == self.identities@.len(),
                ident_len == idents_wire_len(self.identities@.take(k as int)),
                ident_len <= 0xFFFF,
            decreases n - k,
        {
            let l = self.identities[k].identity.len();
            if l > 0xFFFF - 6 || ident_len > 0xFFFF - 6 - l {
                proof {
                    lemma_idents_wire_len_take(self.identities@, k as int);
                    lemma_idents_wire_len_prefix(self.identities@, k as int + 1);
                }
                return Err(DTlsError::RangeExceeded);
            }
            proof {
                lemma_idents_wire_len_take(self.identities@, k as int);
            }
            ident_len = ident_len + 6 + l;
            k = k + 1;
        }
        proof {
            assert(self.identities@.take(n as int) =~= self.identities@);
            lemma_idents_bytes_len(self.identities@);
            vstd::arithmetic::mul::lemma_mul_nonnegative(
                1 + self.hash_size as int,
                self.identities@.len() as int,
            );
        }
        // Length.
        buf.push_u16_be(ident_len as u16)?;
        // Each identity.
        let ghost ids = self.identities@;
        let mut k: usize = 0;
        while k < n
            invariant
                k <= n,
                n == ids.len(),
                ids == self.identities@,
                ident_len == idents_wire_len(ids),
                ident_len <= 0xFFFF,
                self.binders_fit_usize(),
                buf.spec_capacity() == old(buf).spec_capacity(),
                old(buf).bytes().len() + 2 + idents_wire_len(ids.take(k as int))
                    <= buf.spec_capacity(),
                buf.bytes() == old(buf).bytes() + u16_be_bytes(ident_len as u16) + idents_bytes(
                    ids.take(k as int),
                ),
            decreases n - k,
        {
            let ident = &self.identities[k];
            proof {
                lemma_idents_wire_len_prefix(ids, k as int + 1);
                lemma_idents_wire_len_take(ids, k as int);
                lemma_idents_bytes_len(ids.take(k as int));
            }
            match ident.encode(buf) {
                Ok(()) => {},
                Err(e) => {
                    proof {
                        assert(ids[k as int].wf());
                        if e == DTlsError::CapacityExceeded {
                            lemma_idents_bytes_len(ids);
                        }
                        assert(retains_prefix(buf.bytes(), old(buf).bytes()));
                    }
                    return Err(e);
                },
            }
            proof {
                assert(buf.bytes() =~= old(buf).bytes() + u16_be_bytes(ident_len as u16)
                    + idents_bytes(ids.take(k as int + 1)));
            }
            k = k + 1;
        }
        proof {
            assert(ids.take(n as int) =~= ids);
        }
        // Allocate space for binders and return it for future use.
        let binders_len = if n == 0 {
            0
        } else {
            proof {
                assert((1 + self.hash_size as int) * 1 <= (1 + self.hash_size as int) * (n as int))
                    by (nonlinear_arith)
                    requires
                        1 <= n as int,
                        0 <= self.hash_size as int,
                ;
            }
            (1 + self.hash_size) * n
        };
        proof {
            lemma_idents_bytes_len(ids);
            vstd::arithmetic::mul::lemma_mul_basics(1 + self.hash_size as int);
            assert(binders_len as int == self.binders_len());
        }
        match buf.alloc_slice(binders_len) {
            Ok(h) => {
                proof {
                    assert(buf.bytes() =~= old(buf).bytes() + self.body_bytes());
                }
                Ok(h)
            },
            Err(e) => {
                proof {
                    assert(retains_prefix(buf.bytes(), old(buf).bytes()));
                }
                Err(e)
            },
        }
    }
}

/// A client extension: the tagged union over the extension bodies this
/// crate encodes.
#[derive(Clone, Debug, PartialEq)]
pub enum ClientExtensions {
    /// `psk_key_exchange_modes`.
    PskKeyExchangeModes(PskKeyExchangeModes),
    /// `key_share`.
    KeyShare(KeyShareEntry),
    /// `pre_shared_key`.
    PreSharedKey(OfferedPsks),
}

impl ClientExtensions {
    /// The registry entry this extension is tagged with on the wire.
    pub open spec fn spec_extension_type(&self) -> ExtensionType {
        match self {
            ClientExtensions::PskKeyExchangeModes(_) => ExtensionType::PskKeyExchangeModes,
            ClientExtensions::KeyShare(_) => ExtensionType::KeyShare,
            ClientExtensions::PreSharedKey(_) => ExtensionType::PreSharedKey,
        }
    }

    fn extension_type(&self) -> (r: ExtensionType)
        ensures
            r == self.spec_extension_type(),
    {
        match self {
            ClientExtensions::PskKeyExchangeModes(..) => ExtensionType::PskKeyExchangeModes,
            ClientExtensions::KeyShare(_) => ExtensionType::KeyShare,
            ClientExtensions::PreSharedKey(_) => ExtensionType::PreSharedKey,
        }
    }

    /// The width of the extension's body, behind its type/length wrapper.
    pub open spec fn body_len(&self) -> int {
        match self {
            ClientExtensions::PskKeyExchangeModes(m) => m.body_len(),
            ClientExtensions::KeyShare(e) => e.body_len(),
            ClientExtensions::PreSharedKey(p) => p.body_len(),
        }
    }

    /// The extension's body, behind its type/length wrapper.
    pub open spec fn body_bytes(&self) -> Seq<u8> {
        match self {
            ClientExtensions::PskKeyExchangeModes(m) => m.body_bytes(),
            ClientExtensions::KeyShare(e) => e.body_bytes(),
            ClientExtensions::PreSharedKey(p) => p.body_bytes(),
        }
    }

    /// The body is well formed and fits the wrapper's 2-byte length field.
    pub open spec fn wf(&self) -> bool {
        &&& match self {
            ClientExtensions::PskKeyExchangeModes(m) => m.wf(),
            ClientExtensions::KeyShare(e) => e.wf(),
            ClientExtensions::PreSharedKey(p) => p.wf(),
        }
        &&& self.body_len() <= 0xFFFF
    }

    /// A binder region reserved by this extension can be sized in a
    /// `usize`.
    pub open spec fn alloc_ok(&self) -> bool {
        match self {
            ClientExtensions::PreSharedKey(p) => p.binders_fit_usize(),
            _ => true,
        }
    }

    /// Full wire width: type, length, body.
    pub open spec fn wire_len(&self) -> int {
        4 + self.body_len()
    }

    /// Full wire form: extension type (2 bytes), body length (2 bytes),
    /// body.
    pub open spec fn wire_bytes(&self) -> Seq<u8> {
        u16_be_bytes(self.spec_extension_type().spec_code()) + u16_be_bytes(self.body_len() as u16)
            + self.body_bytes()
    }

    /// Proof that an extension body is exactly as long as its stated
    /// width, which is never negative.
    pub proof fn lemma_body(&self)
        ensures
            self.body_bytes().len() == self.body_len(),
            self.body_len() >= 0,
    {
        match self {
            ClientExtensions::PskKeyExchangeModes(_) => {},
            ClientExtensions::KeyShare(_) => {},
            ClientExtensions::PreSharedKey(p) => {
                lemma_idents_bytes_len(p.identities@);
                vstd::arithmetic::mul::lemma_mul_nonnegative(
                    1 + p.hash_size as int,
                    p.identities@.len() as int,
                );
            },
        }
    }

    /// Encode a client extension behind its type/length wrapper. Returns
    /// the handle to write the binders if the extension reserved a binder
    /// region.
    pub fn encode<B: DTlsBuffer>(&self, buf: &mut B) -> (r: Result<
        Option<AllocSliceHandle>,
        DTlsError,
    >)
        requires
            self.alloc_ok(),
        ensures
            final(buf).spec_capacity() == old(buf).spec_capacity(),
            r is Ok <==> self.wf() && old(buf).bytes().len() + self.wire_len() <= old(
                buf,
            ).spec_capacity(),
            r matches Ok(h) ==> final(buf).bytes() == old(buf).bytes() + self.wire_bytes() && (
            match self {
                ClientExtensions::PreSharedKey(p) => h matches Some(hh) && hh.index == old(
                    buf,
                ).bytes().len() + 6 + idents_wire_len(p.identities@) && hh.len == p.binders_len(),
                _ => h is None,
            }),
            r matches Err(e) ==> retains_prefix(final(buf).bytes(), old(buf).bytes()) && (e
                == DTlsError::RangeExceeded ==> !self.wf()) && (e == DTlsError::CapacityExceeded
                ==> old(buf).bytes().len() + self.wire_len() > old(buf).spec_capacity()),
    {
        proof {
            self.lemma_body();
        }
        buf.push_u16_be(self.extension_type().code())?;
        let len_handle = buf.alloc_u16()?;
        let body_start = buf.len();
        let binders = match self {
            ClientExtensions::PskKeyExchangeModes(m) => {
                m.encode(buf)?;
                None
            },
            ClientExtensions::KeyShare(k) => {
                k.encode(buf)?;
                None
            },
            ClientExtensions::PreSharedKey(p) => Some(p.encode(buf)?),
        };
        let body_end = buf.len();
        let body_len = body_end - body_start;
        if body_len > 0xFFFF {
            return Err(DTlsError::RangeExceeded);
        }
        let ghost pre_patch = buf.bytes();
        len_handle.set(buf, body_len as u16);
        proof {
            assert(pre_patch =~= old(buf).bytes() + u16_be_bytes(
                self.spec_extension_type().spec_code(),
            ) + zero_bytes(2) + self.body_bytes());
            assert(final(buf).bytes() =~= old(buf).bytes() + self.wire_bytes());
        }
        Ok(binders)
    }
}

/// The cumulative wire width of a list of extensions, wrappers included.
pub open spec fn exts_wire_len(exts: Seq<ClientExtensions>) -> int
    decreases exts.len(),
{
    if exts.len() == 0 {
        0
    } else {
        exts_wire_len(exts.drop_last()) + exts.last().wire_len()
    }
}

/// The concatenated wire form of a list of extensions.
pub open spec fn exts_bytes(exts: Seq<ClientExtensions>) -> Seq<u8>
    decreases exts.len(),
{
    if exts.len() == 0 {
        Seq::empty()
    } else {
        exts_bytes(exts.drop_last()) + exts.last().wire_bytes()
    }
}

/// How many of the extensions are `pre_shared_key` extensions. At most one
/// may occur in one ClientHello: each reserves a binder region whose handle
/// must be redeemed, and one encode call can hand back only one handle.
pub open spec fn psk_count(exts: Seq<ClientExtensions>) -> int
    decreases exts.len(),
{
    if exts.len() == 0 {
        0
    } else {
        psk_count(exts.drop_last()) + (
        if exts.last() is PreSharedKey {
            1int
        } else {
            0int
        })
    }
}

/// Every extension in the list can size its binder region in a `usize`.
pub open spec fn exts_alloc_ok(exts: Seq<ClientExtensions>) -> bool {
    forall|j: int| 0 <= j < exts.len() ==> (#[trigger] exts[j]).alloc_ok()
}

/// Every extension in the list is well formed.
pub open spec fn exts_wf(exts: Seq<ClientExtensions>) -> bool {
    forall|j: int| 0 <= j < exts.len() ==> (#[trigger] exts[j]).wf()
}

/// Where a binder-region handle points, for an extension list whose wire
/// form starts at absolute offset `at`: at the binder region of the
/// `pre_shared_key` extension found at some position `j` of the list.
pub open spec fn binder_handle_ok(
    h: AllocSliceHandle,
    at: int,
    exts: Seq<ClientExtensions>,
) -> bool {
    exists|j: int|
        {
            &&& 0 <= j < exts.len()
            &&& (#[trigger] exts[j]) matches ClientExtensions::PreSharedKey(p)
            &&& h.len == p.binders_len()
            &&& h.index == at + exts_wire_len(exts.take(j)) + 6 + idents_wire_len(p.identities@)
        }
}

/// The concatenated wire form of an extension list is exactly as long as
/// its cumulative width, and every extension contributes its wrapper.
pub proof fn lemma_exts_bytes_len(exts: Seq<ClientExtensions>)
    ensures
        exts_bytes(exts).len() == exts_wire_len(exts),
        exts_wire_len(exts) >= 4 * exts.len(),
        psk_count(exts) >= 0,
    decreases exts.len(),
{
    if exts.len() > 0 {
        lemma_exts_bytes_len(exts.drop_last());
        exts.last().lemma_body();
    }
}

/// The cumulative width, bytes and PSK count of a prefix, extended by one
/// extension.
pub proof fn lemma_exts_take(exts: Seq<ClientExtensions>, i: int)
    requires
        0 <= i < exts.len(),
    ensures
        exts_wire_len(exts.take(i + 1)) == exts_wire_len(exts.take(i)) + exts[i].wire_len(),
        exts_bytes(exts.take(i + 1)) == exts_bytes(exts.take(i)) + exts[i].wire_bytes(),
        psk_count(exts.take(i + 1)) == psk_count(exts.take(i)) + (
        if exts[i] is PreSharedKey {
            1int
        } else {
            0int
        }),
{
    assert(exts.take(i + 1).drop_last() =~= exts.take(i));
    assert(exts.take(i + 1).last() == exts[i]);
}

/// A prefix of the extension list never gets wider than the whole list,
/// and never holds more `pre_shared_key` extensions.
pub proof fn lemma_exts_prefix(exts: Seq<ClientExtensions>, i: int)
    requires
        0 <= i <= exts.len(),
    ensures
        exts_wire_len(exts.take(i)) + 4 * (exts.len() - i) <= exts_wire_len(exts),
        psk_count(exts.take(i)) <= psk_count(exts),
    decreases exts.len() - i,
{
    if i == exts.len() {
        assert(exts.take(i) =~= exts);
    } else {
        lemma_exts_take(exts, i);
        lemma_exts_prefix(exts, i + 1);
        exts[i].lemma_body();
    }
}

} // verus!

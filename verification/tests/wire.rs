use dtls::buffer::{DTlsBuffer, HeaplessTlsBuffer};
use dtls::cipher_suites::CipherSuite;
use dtls::extensions::{
    ClientExtensions, KeyShareEntry, NamedGroup, OfferedPsks, PskIdentity, PskKeyExchangeMode,
    PskKeyExchangeModes,
};
use dtls::handshake::{server_hello, ClientHandshake, ClientHello, Finished, Handshake};
use dtls::record::{legacy_dtls_version, ClientRecord, ContentType, Encryption};
use dtls::session::RecordNumber;
use dtls::DTlsError;

#[test]
fn client_hello_fixed_fields_in_order() {
    let hello = ClientHello::new([0x11; 32], Vec::new());
    let mut buf = HeaplessTlsBuffer::new();
    let binders = hello.encode(&mut buf).unwrap();
    assert!(binders.is_none());
    let mut expected = vec![0xFE, 0xFD];
    expected.extend_from_slice(&[0x11; 32]);
    expected.push(0x00); // empty session id
    expected.extend_from_slice(&[0x01, 0x00]); // one compression method: null
    expected.extend_from_slice(&[0x00, 0x00]); // empty extensions block
    assert_eq!(buf.as_slice(), expected.as_slice());
}

#[test]
fn offered_psks_encode_layout_and_binder_handle() {
    let psks = OfferedPsks {
        identities: vec![PskIdentity { identity: b"abc".to_vec() }],
        hash_size: 32,
    };
    let mut buf = HeaplessTlsBuffer::new();
    let handle = psks.encode(&mut buf).unwrap();
    // One identity of 3 bytes: 2 (length) + 3 + 4 (ticket age) = 9.
    let mut expected = vec![0x00, 0x09];
    expected.extend_from_slice(&[0x00, 0x03]);
    expected.extend_from_slice(b"abc");
    expected.extend_from_slice(&[0x00, 0x00, 0x00, 0x00]);
    // The binder region: (1 + 32) * 1 = 33 reserved bytes.
    expected.extend_from_slice(&[0u8; 33]);
    assert_eq!(buf.as_slice(), expected.as_slice());
    assert_eq!(handle.index, 11);
    assert_eq!(handle.len, 33);
    handle.set(&mut buf, &[0xAA; 33]);
    assert_eq!(&buf.as_slice()[11..44], &[0xAA; 33]);
    assert_eq!(&buf.as_slice()[..11], &expected[..11]);
}

#[test]
fn psk_key_exchange_modes_body() {
    let modes = PskKeyExchangeModes {
        ke_modes: vec![PskKeyExchangeMode::PskKe, PskKeyExchangeMode::PskDheKe],
    };
    let mut buf = HeaplessTlsBuffer::new();
    modes.encode(&mut buf).unwrap();
    assert_eq!(buf.as_slice(), &[0x02, 0x00, 0x01]);
}

#[test]
fn key_share_entry_body() {
    let entry = KeyShareEntry { group: NamedGroup::X25519, opaque: vec![0xAA, 0xBB, 0xCC] };
    let mut buf = HeaplessTlsBuffer::new();
    entry.encode(&mut buf).unwrap();
    assert_eq!(
        buf.as_slice(),
        &[0x00, 0x07, 0x00, 0x1D, 0x00, 0x03, 0xAA, 0xBB, 0xCC]
    );
}

#[test]
fn psk_identity_wire_form() {
    let ident = PskIdentity { identity: b"id".to_vec() };
    let mut buf = HeaplessTlsBuffer::new();
    ident.encode(&mut buf).unwrap();
    assert_eq!(buf.as_slice(), &[0x00, 0x02, b'i', b'd', 0x00, 0x00, 0x00, 0x00]);
}

#[test]
fn oversized_psk_identity_is_a_range_error() {
    let ident = PskIdentity { identity: vec![0u8; 0x10000] };
    let mut buf = HeaplessTlsBuffer::new();
    assert_eq!(ident.encode(&mut buf), Err(DTlsError::RangeExceeded));
    assert_eq!(buf.len(), 0);
}

#[test]
fn extension_wrapper_carries_type_and_length() {
    let ext = ClientExtensions::PskKeyExchangeModes(PskKeyExchangeModes {
        ke_modes: vec![PskKeyExchangeMode::PskDheKe],
    });
    let mut buf = HeaplessTlsBuffer::new();
    let binders = ext.encode(&mut buf).unwrap();
    assert!(binders.is_none());
    // Type 45, body length 2, then the body: count 1, mode 1.
    assert_eq!(buf.as_slice(), &[0x00, 0x2D, 0x00, 0x02, 0x01, 0x01]);
}

#[test]
fn pre_shared_key_extension_returns_the_binder_handle() {
    let ext = ClientExtensions::PreSharedKey(OfferedPsks {
        identities: vec![PskIdentity { identity: b"key".to_vec() }],
        hash_size: 4,
    });
    let mut buf = HeaplessTlsBuffer::new();
    let handle = ext.encode(&mut buf).unwrap().unwrap();
    // Wrapper (4) + identity-block length (2) + identity (9) precede the
    // binder region of (1 + 4) * 1 = 5 bytes.
    assert_eq!(handle.index, 15);
    assert_eq!(handle.len, 5);
    assert_eq!(buf.len(), 20);
    handle.set(&mut buf, &[1, 2, 3, 4, 5]);
    assert_eq!(&buf.as_slice()[15..], &[1, 2, 3, 4, 5]);
    // Type 41, body length 16.
    assert_eq!(&buf.as_slice()[..4], &[0x00, 0x29, 0x00, 0x10]);
}

#[test]
fn named_group_registry_round_trip() {
    assert_eq!(NamedGroup::of(0x0017), Some(NamedGroup::Secp256r1));
    assert_eq!(NamedGroup::of(0x001D), Some(NamedGroup::X25519));
    assert_eq!(NamedGroup::of(0x0104), Some(NamedGroup::Ffdhe8192));
    assert_eq!(NamedGroup::of(0x9999), None);
    assert_eq!(NamedGroup::X448.code(), 0x001E);
}

#[test]
fn content_type_of_reads_back_every_record_classification() {
    assert_eq!(ContentType::of(20), Some(ContentType::ChangeCipherSpec));
    assert_eq!(ContentType::of(21), Some(ContentType::Alert));
    assert_eq!(ContentType::of(22), Some(ContentType::Handshake));
    assert_eq!(ContentType::of(23), Some(ContentType::ApplicationData));
    assert_eq!(ContentType::of(24), Some(ContentType::Heartbeat));
    assert_eq!(ContentType::of(26), Some(ContentType::Ack));
    assert_eq!(ContentType::of(25), None);
    assert_eq!(ContentType::of(0), None);
    assert_eq!(ContentType::of(255), None);
}

#[test]
fn cipher_suite_of_knows_the_supported_suite() {
    assert_eq!(CipherSuite::of(0x1303), Some(CipherSuite::TlsChacha20Poly1305Sha256));
    assert_eq!(CipherSuite::of(0x1301), None);
    assert_eq!(CipherSuite::TlsChacha20Poly1305Sha256.code(), 0x1303);
}

fn first_record_byte(record: &ClientRecord) -> u8 {
    let mut buf = HeaplessTlsBuffer::new();
    record.encode(&mut buf).unwrap();
    buf.as_slice()[0]
}

#[test]
fn encryption_enabled_hides_every_content_type() {
    let hs = ClientHandshake::Finished(Finished { verify: [0; 64] });
    assert_eq!(first_record_byte(&ClientRecord::Handshake(hs, Encryption::Enabled)), 23);
    assert_eq!(
        first_record_byte(&ClientRecord::ChangeCipherSpec((), Encryption::Enabled)),
        23
    );
    assert_eq!(first_record_byte(&ClientRecord::Alert((), Encryption::Enabled)), 23);
    assert_eq!(first_record_byte(&ClientRecord::Heartbeat((), Encryption::Enabled)), 23);
    assert_eq!(first_record_byte(&ClientRecord::Ack((), Encryption::Enabled)), 23);
    assert_eq!(first_record_byte(&ClientRecord::ApplicationData()), 23);
}

#[test]
fn encryption_disabled_maps_each_kind_to_itself() {
    let hs = ClientHandshake::Finished(Finished { verify: [0; 64] });
    assert_eq!(first_record_byte(&ClientRecord::Handshake(hs, Encryption::Disabled)), 22);
    assert_eq!(
        first_record_byte(&ClientRecord::ChangeCipherSpec((), Encryption::Disabled)),
        20
    );
    assert_eq!(first_record_byte(&ClientRecord::Alert((), Encryption::Disabled)), 21);
    assert_eq!(first_record_byte(&ClientRecord::Heartbeat((), Encryption::Disabled)), 24);
    assert_eq!(first_record_byte(&ClientRecord::Ack((), Encryption::Disabled)), 26);
}

#[test]
fn client_hello_record_layout() {
    let record = ClientRecord::client_hello(ClientHello::new([0x42; 32], Vec::new()));
    let mut buf = HeaplessTlsBuffer::new();
    let binders = record.encode(&mut buf).unwrap();
    assert!(binders.is_none());
    let mut expected = Vec::new();
    // Record header: handshake, legacy version, epoch 0, sequence 0.
    expected.push(22);
    expected.extend_from_slice(&[0xFE, 0xFD]);
    expected.extend_from_slice(&[0x00, 0x00]);
    expected.extend_from_slice(&[0x00; 6]);
    // Record length: handshake envelope (12) + ClientHello body (39).
    expected.extend_from_slice(&[0x00, 51]);
    // Handshake envelope: client_hello, length, seq 0, fragment offset 0,
    // fragment length equal to the body length.
    expected.push(1);
    expected.extend_from_slice(&[0x00, 0x00, 39]);
    expected.extend_from_slice(&[0x00, 0x00]);
    expected.extend_from_slice(&[0x00, 0x00, 0x00]);
    expected.extend_from_slice(&[0x00, 0x00, 39]);
    // ClientHello body.
    expected.extend_from_slice(&[0xFE, 0xFD]);
    expected.extend_from_slice(&[0x42; 32]);
    expected.push(0x00);
    expected.extend_from_slice(&[0x01, 0x00]);
    expected.extend_from_slice(&[0x00, 0x00]);
    assert_eq!(buf.as_slice(), expected.as_slice());
}

#[test]
fn client_hello_record_with_psk_extension_returns_binder_handle() {
    let exts = vec![
        ClientExtensions::KeyShare(KeyShareEntry {
            group: NamedGroup::X25519,
            opaque: vec![0x55; 32],
        }),
        ClientExtensions::PreSharedKey(OfferedPsks {
            identities: vec![PskIdentity { identity: b"psk-1".to_vec() }],
            hash_size: 32,
        }),
    ];
    let record = ClientRecord::client_hello(ClientHello::new([0x01; 32], exts));
    let mut buf = HeaplessTlsBuffer::new();
    let handle = record.encode(&mut buf).unwrap().unwrap();
    // The binder region is the final 33 bytes of the record.
    assert_eq!(handle.len, 33);
    assert_eq!(handle.index + handle.len, buf.len());
    let binders = [0xB4; 33];
    let index = handle.index;
    handle.set(&mut buf, &binders);
    assert_eq!(&buf.as_slice()[index..], &binders);
}

#[test]
fn finished_handshake_message_layout() {
    let msg = Handshake {
        message_seq: 5,
        body: ClientHandshake::Finished(Finished { verify: [7; 64] }),
    };
    let mut buf = HeaplessTlsBuffer::new();
    let binders = msg.encode(&mut buf).unwrap();
    assert!(binders.is_none());
    let mut expected = vec![20, 0x00, 0x00, 64, 0x00, 5, 0x00, 0x00, 0x00, 0x00, 0x00, 64];
    expected.extend_from_slice(&[7; 64]);
    assert_eq!(buf.as_slice(), expected.as_slice());
}

#[test]
fn encode_into_a_nearly_full_buffer_is_a_capacity_error() {
    let record = ClientRecord::client_hello(ClientHello::new([0; 32], Vec::new()));
    let mut buf = HeaplessTlsBuffer::new();
    let fill = vec![0xEE; 1000];
    buf.extend_from_slice(&fill).unwrap();
    assert!(matches!(record.encode(&mut buf), Err(DTlsError::CapacityExceeded)));
    // Bytes committed before the failure are retained; the record is
    // abandoned by its caller.
    assert_eq!(&buf.as_slice()[..1000], fill.as_slice());
}

#[test]
fn server_hello_leaves_the_buffer_unchanged() {
    let mut buf = HeaplessTlsBuffer::new();
    buf.extend_from_slice(&[1, 2, 3]).unwrap();
    server_hello(&mut buf);
    assert_eq!(buf.as_slice(), &[1, 2, 3]);
}

#[test]
fn record_number_starts_at_zero() {
    let _counter = RecordNumber::new();
    assert_eq!(legacy_dtls_version(), [0xFE, 0xFD]);
}

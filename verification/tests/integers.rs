use dtls::integers::{U24, U48};
use dtls::DTlsError;

#[test]
fn u24_new_accepts_exactly_24_bits() {
    assert_eq!(U24::new(0).unwrap().value(), 0);
    assert_eq!(U24::new(0xFFFFFF).unwrap().value(), 0xFFFFFF);
    assert_eq!(U24::new(0x1000000), Err(DTlsError::RangeExceeded));
    assert_eq!(U24::new(u32::MAX), Err(DTlsError::RangeExceeded));
}

#[test]
fn u48_new_accepts_exactly_48_bits() {
    assert_eq!(U48::new(0).unwrap().value(), 0);
    assert_eq!(U48::new(0xFFFFFFFFFFFF).unwrap().value(), 0xFFFFFFFFFFFF);
    assert_eq!(U48::new(0x1000000000000), Err(DTlsError::RangeExceeded));
    assert_eq!(U48::new(u64::MAX), Err(DTlsError::RangeExceeded));
}

#[test]
fn u24_serializes_big_endian() {
    assert_eq!(U24::new(0x123456).unwrap().to_be_bytes(), [0x12, 0x34, 0x56]);
    assert_eq!(U24::new(5).unwrap().to_be_bytes(), [0, 0, 5]);
    assert_eq!(U24::zero().to_be_bytes(), [0, 0, 0]);
}

#[test]
fn u48_serializes_big_endian() {
    assert_eq!(
        U48::new(0x0102030405FF).unwrap().to_be_bytes(),
        [0x01, 0x02, 0x03, 0x04, 0x05, 0xFF]
    );
    assert_eq!(U48::zero().to_be_bytes(), [0, 0, 0, 0, 0, 0]);
}

#[test]
fn u24_round_trips_through_its_bytes() {
    for v in [0u32, 1, 0x80, 0x1234, 0xABCDEF, 0xFFFFFF] {
        let n = U24::new(v).unwrap();
        assert_eq!(U24::from_be_bytes(n.to_be_bytes()).value(), v);
    }
}

#[test]
fn u48_round_trips_through_its_bytes() {
    for v in [0u64, 1, 0xFFFF, 0xDEADBEEF, 0xFFFFFFFFFFFF] {
        let n = U48::new(v).unwrap();
        assert_eq!(U48::from_be_bytes(n.to_be_bytes()).value(), v);
    }
}

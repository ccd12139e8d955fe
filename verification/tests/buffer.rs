use dtls::buffer::{DTlsBuffer, HeaplessTlsBuffer, BUFFER_CAPACITY};
use dtls::integers::{U24, U48};
use dtls::DTlsError;

#[test]
fn push() {}

#[test]
fn allocation() {}

#[test]
fn open_connection() {}

#[test]
fn new_buffer_is_empty() {
    let buf = HeaplessTlsBuffer::new();
    assert_eq!(buf.len(), 0);
    assert_eq!(buf.as_slice(), &[] as &[u8]);
    assert_eq!(buf.capacity(), BUFFER_CAPACITY);
}

#[test]
fn pushes_within_capacity_all_succeed_and_len_is_sum_of_widths() {
    let mut buf = HeaplessTlsBuffer::new();
    assert!(buf.push_u8(0xAB).is_ok());
    assert!(buf.push_u16_be(0x0102).is_ok());
    assert!(buf.push_u24_be(U24::new(0x030405).unwrap()).is_ok());
    assert!(buf.push_u32_be(0x06070809).is_ok());
    assert!(buf.push_u48_be(U48::new(0x0A0B0C0D0E0F).unwrap()).is_ok());
    assert!(buf.extend_from_slice(&[0x10, 0x11, 0x12]).is_ok());
    assert_eq!(buf.len(), 1 + 2 + 3 + 4 + 6 + 3);
    assert_eq!(
        buf.as_slice(),
        &[
            0xAB, 0x01, 0x02, 0x03, 0x04, 0x05, 0x06, 0x07, 0x08, 0x09, 0x0A, 0x0B, 0x0C, 0x0D,
            0x0E, 0x0F, 0x10, 0x11, 0x12
        ]
    );
}

#[test]
fn alloc_reserves_zeroed_bytes_and_advances_cursor() {
    let mut buf = HeaplessTlsBuffer::new();
    buf.push_u8(0xFF).unwrap();
    let h8 = buf.alloc_u8().unwrap();
    let h16 = buf.alloc_u16().unwrap();
    let h24 = buf.alloc_u24().unwrap();
    let h48 = buf.alloc_u48().unwrap();
    let hs = buf.alloc_slice(5).unwrap();
    assert_eq!(h8.index, 1);
    assert_eq!(h16.index, 2);
    assert_eq!(h24.index, 4);
    assert_eq!(h48.index, 7);
    assert_eq!(hs.index, 13);
    assert_eq!(hs.len, 5);
    assert_eq!(buf.len(), 18);
    assert_eq!(&buf.as_slice()[1..], &[0u8; 17]);
    h8.set(&mut buf, 1);
    h16.set(&mut buf, 2);
    h24.set(&mut buf, U24::new(3).unwrap());
    h48.set(&mut buf, U48::new(4).unwrap());
    hs.set(&mut buf, &[9, 9, 9, 9, 9]);
    assert_eq!(
        buf.as_slice(),
        &[0xFF, 1, 0, 2, 0, 0, 3, 0, 0, 0, 0, 0, 4, 9, 9, 9, 9, 9]
    );
}

#[test]
fn redeeming_a_handle_writes_exactly_the_reserved_range() {
    let mut buf = HeaplessTlsBuffer::new();
    buf.extend_from_slice(&[0x51, 0x52, 0x53]).unwrap();
    let handle = buf.alloc_u16().unwrap();
    buf.extend_from_slice(&[0x54, 0x55]).unwrap();
    assert_eq!(buf.as_slice(), &[0x51, 0x52, 0x53, 0x00, 0x00, 0x54, 0x55]);
    handle.set(&mut buf, 0xBEEF);
    // Exactly the reserved two bytes changed; everything else is untouched.
    assert_eq!(buf.as_slice(), &[0x51, 0x52, 0x53, 0xBE, 0xEF, 0x54, 0x55]);
    assert_eq!(buf.len(), 7);
}

#[test]
fn redeeming_a_slice_handle_writes_exactly_the_reserved_range() {
    let mut buf = HeaplessTlsBuffer::new();
    buf.push_u8(0xA0).unwrap();
    let handle = buf.alloc_slice(3).unwrap();
    buf.push_u8(0xA1).unwrap();
    handle.set(&mut buf, &[0xB0, 0xB1, 0xB2]);
    assert_eq!(buf.as_slice(), &[0xA0, 0xB0, 0xB1, 0xB2, 0xA1]);
}

#[test]
fn push_beyond_capacity_fails_and_leaves_len_unchanged() {
    let mut buf = HeaplessTlsBuffer::new();
    let fill = vec![0x77u8; BUFFER_CAPACITY - 1];
    buf.extend_from_slice(&fill).unwrap();
    // A two-byte push does not fit the one remaining byte.
    assert_eq!(buf.push_u16_be(0x1234), Err(DTlsError::CapacityExceeded));
    assert_eq!(buf.len(), BUFFER_CAPACITY - 1);
    // Nothing was partially written.
    assert!(buf.as_slice().iter().all(|&b| b == 0x77));
    // A one-byte push still fits.
    assert!(buf.push_u8(0x01).is_ok());
    assert_eq!(buf.len(), BUFFER_CAPACITY);
    assert_eq!(buf.push_u8(0x02), Err(DTlsError::CapacityExceeded));
    assert_eq!(buf.len(), BUFFER_CAPACITY);
}

#[test]
fn extend_beyond_capacity_fails_atomically() {
    let mut buf = HeaplessTlsBuffer::new();
    let fill = vec![0x33u8; BUFFER_CAPACITY - 2];
    buf.extend_from_slice(&fill).unwrap();
    assert_eq!(
        buf.extend_from_slice(&[1, 2, 3]),
        Err(DTlsError::CapacityExceeded)
    );
    assert_eq!(buf.len(), BUFFER_CAPACITY - 2);
    assert!(buf.extend_from_slice(&[1, 2]).is_ok());
    assert_eq!(buf.len(), BUFFER_CAPACITY);
}

#[test]
fn alloc_slice_beyond_capacity_fails_and_leaves_len_unchanged() {
    let mut buf = HeaplessTlsBuffer::new();
    buf.push_u8(0x01).unwrap();
    assert!(buf.alloc_slice(BUFFER_CAPACITY).is_err());
    assert_eq!(buf.len(), 1);
    let h = buf.alloc_slice(BUFFER_CAPACITY - 1).unwrap();
    assert_eq!(buf.len(), BUFFER_CAPACITY);
    h.set(&mut buf, &vec![0u8; BUFFER_CAPACITY - 1]);
}

#[test]
fn exact_fit_fills_the_buffer() {
    let mut buf = HeaplessTlsBuffer::new();
    let fill = vec![0x44u8; BUFFER_CAPACITY];
    assert!(buf.extend_from_slice(&fill).is_ok());
    assert_eq!(buf.len(), BUFFER_CAPACITY);
    assert_eq!(buf.as_slice(), fill.as_slice());
}

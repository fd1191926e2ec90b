use basisu_c_sys::itoa::{itoa, utoa};

#[test]
fn zero() {
    let mut buf = [b'\0'; 32];
    assert_eq!(itoa(0, &mut buf, 10), 1);
    assert_eq!(&buf[..2], b"0\0");
}

#[test]
fn hex() {
    let mut buf = [b'\0'; 32];
    assert_eq!(itoa(0xDEADBEEF, &mut buf, 16), 8);
    assert_eq!(&buf[..9], b"deadbeef\0");
}

#[test]
fn negative() {
    let mut buf = [b'\0'; 32];
    itoa(-123, &mut buf, 10);
    assert_eq!(&buf[..5], b"-123\0");
}

#[test]
fn negative_returns_digit_count_without_sign() {
    let mut buf = [b'\0'; 32];
    assert_eq!(itoa(-123, &mut buf, 10), 3);
}

#[test]
fn utoa_max_in_binary_uses_sixty_four_digits() {
    let mut buf = [b'x'; 70];
    assert_eq!(utoa(u64::MAX, &mut buf, 2), 64);
    assert!(buf[..64].iter().all(|&b| b == b'1'));
    assert_eq!(buf[64], 0);
    assert_eq!(&buf[65..], b"xxxxx");
}

#[test]
fn utoa_exact_fit_has_no_terminator() {
    let mut buf = [b'x'; 3];
    assert_eq!(utoa(255, &mut buf, 10), 3);
    assert_eq!(&buf, b"255");
}

#[test]
fn utoa_too_small_buffer_fails_with_low_digits_first() {
    let mut buf = [b'x'; 2];
    assert_eq!(utoa(1234, &mut buf, 10), -1);
    assert_eq!(&buf, b"43");
}

#[test]
fn utoa_into_empty_buffer() {
    let mut buf: [u8; 0] = [];
    assert_eq!(utoa(0, &mut buf, 10), 0);
    assert_eq!(utoa(7, &mut buf, 10), -1);
}

#[test]
fn itoa_negative_into_one_byte_writes_only_the_sign() {
    let mut buf = [b'x'; 1];
    assert_eq!(itoa(-5, &mut buf, 10), -1);
    assert_eq!(&buf, b"-");
}

#[test]
fn utoa_base_36_uses_letters() {
    let mut buf = [0u8; 8];
    assert_eq!(utoa(35 * 36 + 10, &mut buf, 36), 2);
    assert_eq!(&buf[..3], b"za\0");
}

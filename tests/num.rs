use nimbus::num::{DecodeError, NonZeroU32};
use parity_scale_codec::Encode;

#[test]
fn test_new_returns_none_if_zero() {
    assert_eq!(None, NonZeroU32::new(0));
}

#[test]
fn test_new_returns_some_if_nonzero() {
    let n = 10;
    let expected = Some(NonZeroU32::new_unchecked(n));

    let actual = NonZeroU32::new(n);
    assert_eq!(expected, actual);
    assert_eq!(n, actual.unwrap().get());
}

#[test]
fn test_decode_errors_if_zero_value() {
    let buf: Vec<u8> = 0u32.encode();
    let result = NonZeroU32::decode(&buf[..]);
    assert!(result.is_err(), "expected error, got {:?}", result);
}

#[test]
fn test_decode_succeeds_if_nonzero_value() {
    let buf: Vec<u8> = 1u32.encode();

    let result = NonZeroU32::decode(&buf[..]);
    assert!(result.is_ok(), "unexpected error, got {:?}", result);
    assert_eq!(Ok(NonZeroU32::new_unchecked(1)), result);
}

#[test]
fn new_keeps_the_largest_value() {
    assert_eq!(NonZeroU32::new(u32::MAX).map(|n| n.get()), Some(u32::MAX));
    assert_eq!(NonZeroU32::new(1).map(|n| n.get()), Some(1));
}

#[test]
fn decode_reads_little_endian_bytes() {
    let result = NonZeroU32::decode(&[0x01, 0x02, 0x00, 0x00]);
    assert_eq!(result.map(|n| n.get()), Ok(0x0201));
    let encoded = 70_000u32.encode();
    assert_eq!(NonZeroU32::decode(&encoded[..]).map(|n| n.get()), Ok(70_000));
}

#[test]
fn decode_ignores_bytes_after_the_number() {
    let result = NonZeroU32::decode(&[5, 0, 0, 0, 0xff, 0xff]);
    assert_eq!(result.map(|n| n.get()), Ok(5));
}

#[test]
fn decode_rejects_short_input() {
    assert_eq!(NonZeroU32::decode(&[]), Err(DecodeError::NotEnoughData));
    assert_eq!(NonZeroU32::decode(&[1, 0, 0]), Err(DecodeError::NotEnoughData));
}

#[test]
fn decode_rejects_zero() {
    assert_eq!(NonZeroU32::decode(&[0, 0, 0, 0]), Err(DecodeError::Zero));
}

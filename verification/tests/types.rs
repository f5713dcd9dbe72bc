use probe_advertisement::error::DecodeError;
use probe_advertisement::types::{SizedInt, ThreeBit};

#[test]
fn three_bit_takes_zero_to_seven() {
    for value in 0u8..=7 {
        let sized = SizedInt::<ThreeBit>::new(value).unwrap();
        assert_eq!(sized.value(), value);
    }
}

#[test]
fn three_bit_refuses_eight_and_above() {
    for value in 8u8..=255 {
        assert_eq!(
            SizedInt::<ThreeBit>::new(value).unwrap_err(),
            DecodeError::OutOfRange { value, max: 7 }
        );
    }
}

#[test]
fn sized_ints_are_equal_when_their_values_are() {
    for left in 0u8..=7 {
        for right in 0u8..=7 {
            let a = SizedInt::<ThreeBit>::new(left).unwrap();
            let b = SizedInt::<ThreeBit>::new(right).unwrap();
            assert_eq!(a == b, left == right);
            assert_eq!(a != b, left != right);
        }
    }
}

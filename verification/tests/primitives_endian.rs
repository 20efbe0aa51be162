use asr::primitives::{Endian, FromEndian};
use asr::{Address16, Address32, Address64};

#[test]
fn big_endian_values_read_with_their_bytes_reversed() {
    assert_eq!(0x1234_u16.from_be(), 0x3412);
    assert_eq!(0x1234_5678_u32.from_be(), 0x7856_3412);
    assert_eq!(0x0102_0304_0506_0708_u64.from_be(), 0x0807_0605_0403_0201);
    assert_eq!((-2_i16).from_be(), i16::from_be(-2));
    assert_eq!(0x1234_5678_i32.from_be(), 0x7856_3412);
    assert_eq!((-1_i64).from_be(), -1);
    assert_eq!(0xAB_u8.from_be(), 0xAB);
    assert!(true.from_be());
}

#[test]
fn little_endian_values_read_as_they_are() {
    assert_eq!(0x1234_u16.from_le(), 0x1234);
    assert_eq!(0x1234_5678_u32.from_le(), 0x1234_5678);
    assert_eq!(0x0102_0304_0506_0708_u64.from_endian(Endian::Little), 0x0102_0304_0506_0708);
    assert_eq!(0x0102_0304_0506_0708_u64.from_endian(Endian::Big), 0x0807_0605_0403_0201);
}

#[test]
fn addresses_convert_by_their_value() {
    assert_eq!(Address16(0x1234).from_be(), Address16(0x3412));
    assert_eq!(Address32(0x1234_5678).from_be(), Address32(0x7856_3412));
    assert_eq!(
        Address64(0x0102_0304_0506_0708).from_endian(Endian::Big),
        Address64(0x0807_0605_0403_0201)
    );
    assert_eq!(Address64(5).from_le(), Address64(5));
}

// Converting twice gives the value back, as std's conversion does.
#[test]
fn conversions_agree_with_the_standard_library() {
    for x in [0_u32, 1, 0xFF, 0x1234_5678, u32::MAX, 0x8000_0001] {
        assert_eq!(x.from_be(), u32::from_be(x));
        assert_eq!(x.from_be().from_be(), x);
    }
    for x in [0_u64, 1, 0xFF00, 0x0123_4567_89AB_CDEF, u64::MAX] {
        assert_eq!(x.from_be(), u64::from_be(x));
    }
    for x in [0_i32, -1, i32::MIN, 0x1234_5678] {
        assert_eq!(x.from_be(), i32::from_be(x));
    }
}

// Reversing the bytes twice gives the value back, at every width.
#[test]
fn converting_from_big_endian_twice_gives_the_value_back() {
    for x in [0u16, 1, 0x1234, 0xFF00, u16::MAX] {
        assert_eq!(x.from_be().from_be(), x);
    }
    for x in [0u32, 1, 0x1234_5678, 0xFF00_00FF, u32::MAX] {
        assert_eq!(x.from_be().from_be(), x);
    }
    for x in [0u64, 1, 0x0123_4567_89AB_CDEF, u64::MAX] {
        assert_eq!(x.from_be().from_be(), x);
    }
    assert_eq!(0x1234u16.from_endian(Endian::Little), 0x1234);
}

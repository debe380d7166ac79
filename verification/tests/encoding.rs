use wasui_memory::preview1::encoding::{
    u32_from_le, u32_to_le, u64_from_le, u64_to_le, u8_from_le, u8_to_le,
};

#[test]
fn u8_encoding_is_the_byte() {
    assert_eq!(u8_to_le(0), [0]);
    assert_eq!(u8_to_le(0xA5), [0xA5]);
    assert_eq!(u8_from_le(&[0xFF]), 0xFF);
}

#[test]
fn u32_encoding_puts_the_low_byte_first() {
    assert_eq!(u32_to_le(0x12345678), [0x78, 0x56, 0x34, 0x12]);
    assert_eq!(u32_to_le(0), [0, 0, 0, 0]);
    assert_eq!(u32_to_le(1), [1, 0, 0, 0]);
    assert_eq!(u32_to_le(u32::MAX), [0xFF; 4]);
    assert_eq!(u32_to_le(0x8000_0000), [0, 0, 0, 0x80]);
}

#[test]
fn u32_decoding_reads_the_low_byte_first() {
    assert_eq!(u32_from_le(&[0x78, 0x56, 0x34, 0x12]), 0x12345678);
    assert_eq!(u32_from_le(&[0, 0, 0, 0x80]), 0x8000_0000);
    assert_eq!(u32_from_le(&[0xFF; 4]), u32::MAX);
    assert_eq!(u32_from_le(&[0, 1, 0, 0]), 256);
}

#[test]
fn u64_encoding_puts_the_low_byte_first() {
    assert_eq!(
        u64_to_le(0x0102030405060708),
        [0x08, 0x07, 0x06, 0x05, 0x04, 0x03, 0x02, 0x01]
    );
    assert_eq!(u64_to_le(u64::MAX), [0xFF; 8]);
    assert_eq!(u64_to_le(1 << 63), [0, 0, 0, 0, 0, 0, 0, 0x80]);
}

#[test]
fn u64_decoding_reads_the_low_byte_first() {
    assert_eq!(
        u64_from_le(&[0x08, 0x07, 0x06, 0x05, 0x04, 0x03, 0x02, 0x01]),
        0x0102030405060708
    );
    assert_eq!(u64_from_le(&[0xFF; 8]), u64::MAX);
    assert_eq!(u64_from_le(&[0, 0, 0, 0, 1, 0, 0, 0]), 1 << 32);
}

#[test]
fn encodings_agree_with_the_standard_library() {
    for value in [0u32, 1, 0xFF, 0x1234, 0xDEADBEEF, u32::MAX] {
        assert_eq!(u32_to_le(value), value.to_le_bytes());
        assert_eq!(u32_from_le(&value.to_le_bytes()), value);
    }
    for value in [0u64, 1, 0xFFFF_FFFF, 0x0123_4567_89AB_CDEF, u64::MAX] {
        assert_eq!(u64_to_le(value), value.to_le_bytes());
        assert_eq!(u64_from_le(&value.to_le_bytes()), value);
    }
}

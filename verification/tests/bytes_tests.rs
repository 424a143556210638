use uber_mm::bytes::read_u128_le;
use uber_mm::bytes::read_u32_le;
use uber_mm::bytes::read_u64_le;
use uber_mm::bytes::same_address;

#[test]
fn numbers_are_read_in_little_endian_order() {
    let data: [u8; 20] = [
        0xff, 0x01, 0x02, 0x03, 0x04, 0x05, 0x06, 0x07, 0x08, 0x09, 0x0a, 0x0b, 0x0c, 0x0d, 0x0e,
        0x0f, 0x10, 0x11, 0x12, 0x13,
    ];
    assert_eq!(read_u32_le(&data, 1), 0x0403_0201);
    assert_eq!(read_u64_le(&data, 1), 0x0807_0605_0403_0201);
    assert_eq!(read_u128_le(&data, 1), 0x100f_0e0d_0c0b_0a09_0807_0605_0403_0201);
    assert_eq!(read_u32_le(&data, 16), 0x1312_1110);
    assert_eq!(read_u32_le(&data, 0), 0x0302_01ff);
}

#[test]
fn numbers_read_agree_with_the_standard_conversions() {
    let data: Vec<u8> = (0..64u32).map(|i| (i * 37 + 11) as u8).collect();
    for at in 0..48 {
        assert_eq!(
            read_u32_le(&data, at),
            u32::from_le_bytes(data[at..at + 4].try_into().unwrap())
        );
        assert_eq!(
            read_u64_le(&data, at),
            u64::from_le_bytes(data[at..at + 8].try_into().unwrap())
        );
        assert_eq!(
            read_u128_le(&data, at),
            u128::from_le_bytes(data[at..at + 16].try_into().unwrap())
        );
    }
}

#[test]
fn largest_numbers_are_read_without_overflow() {
    let data = [0xffu8; 16];
    assert_eq!(read_u32_le(&data, 0), u32::MAX);
    assert_eq!(read_u64_le(&data, 8), u64::MAX);
    assert_eq!(read_u128_le(&data, 0), u128::MAX);
}

#[test]
fn addresses_are_the_same_when_every_byte_is() {
    let a = [7u8; 32];
    let mut b = [7u8; 32];
    assert!(same_address(&a, &b));
    b[31] = 8;
    assert!(!same_address(&a, &b));
    b[31] = 7;
    b[0] = 6;
    assert!(!same_address(&a, &b));
}

use pinocchio_amm::codec::{read_i64_le, read_u16_le, read_u64_le, u16_to_le, u64_to_le};

#[test]
fn reads_little_endian_integers() {
    let bytes: Vec<u8> = vec![0xff, 0x01, 0x02, 0x03, 0x04, 0x05, 0x06, 0x07, 0x08, 0x09];
    assert_eq!(read_u64_le(&bytes, 1), 0x0807_0605_0403_0201);
    assert_eq!(read_u16_le(&bytes, 0), 0x01ff);
    let minus_two: Vec<u8> = vec![0xfe, 0xff, 0xff, 0xff, 0xff, 0xff, 0xff, 0xff];
    assert_eq!(read_i64_le(&minus_two, 0), -2);
    assert_eq!(u64_to_le(0x0807_0605_0403_0201), [1, 2, 3, 4, 5, 6, 7, 8]);
    assert_eq!(u16_to_le(10_000), [0x10, 0x27]);
}

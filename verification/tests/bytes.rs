use svg_dump::bytes::{read_be16, read_be32};

#[test]
fn be16_has_the_high_byte_first() {
    assert_eq!(read_be16(&[0x12, 0x34], 0), 0x1234);
    assert_eq!(read_be16(&[0x00, 0x0c], 0), 12);
    assert_eq!(read_be16(&[0x01, 0x00], 0), 256);
    assert_eq!(read_be16(&[0xff, 0xff], 0), 65535);
    assert_eq!(read_be16(&[0, 0], 0), 0);
}

#[test]
fn be16_is_read_at_the_given_place() {
    let data = [0xaa, 0x01, 0x02, 0x03, 0xbb];
    assert_eq!(read_be16(&data, 0), 0xaa01);
    assert_eq!(read_be16(&data, 1), 0x0102);
    assert_eq!(read_be16(&data, 2), 0x0203);
    assert_eq!(read_be16(&data, 3), 0x03bb);
}

#[test]
fn be32_has_the_high_byte_first() {
    assert_eq!(read_be32(&[0x12, 0x34, 0x56, 0x78], 0), 0x1234_5678);
    assert_eq!(read_be32(&[0, 0, 0, 10], 0), 10);
    assert_eq!(read_be32(&[0, 0, 1, 0], 0), 256);
    assert_eq!(read_be32(&[0, 1, 0, 0], 0), 65536);
    assert_eq!(read_be32(&[1, 0, 0, 0], 0), 16_777_216);
    assert_eq!(read_be32(&[0xff, 0xff, 0xff, 0xff], 0), u32::MAX);
    assert_eq!(read_be32(&[0, 0, 0, 0], 0), 0);
}

#[test]
fn be32_is_read_at_the_given_place() {
    let data = [0xaa, 0x53, 0x56, 0x47, 0x20, 0xbb];
    assert_eq!(read_be32(&data, 1), 0x5356_4720);
    assert_eq!(read_be32(&data, 0), 0xaa53_5647);
    assert_eq!(read_be32(&data, 2), 0x5647_20bb);
}

#[test]
fn big_endian_reads_agree_with_the_standard_ones() {
    let data: Vec<u8> = (0..=255u8).rev().collect();
    for at in 0..data.len() - 3 {
        assert_eq!(read_be16(&data, at), u16::from_be_bytes([data[at], data[at + 1]]));
        assert_eq!(
            read_be32(&data, at),
            u32::from_be_bytes([data[at], data[at + 1], data[at + 2], data[at + 3]])
        );
    }
}

use bean_boot::packed::{read_u16, read_u32, read_u64};

#[test]
fn reads_16_bits_little_endian() {
    let bytes = [0xFF_u8, 0x34, 0x12, 0xFF];
    assert_eq!(read_u16(&bytes, 1), 0x1234);
    assert_eq!(read_u16(&bytes, 0), 0x34FF);
    assert_eq!(read_u16(&bytes, 2), 0xFF12);
}

#[test]
fn reads_32_bits_little_endian() {
    let bytes = [0_u8, 0x78, 0x56, 0x34, 0x12, 0xFF, 0xFF, 0xFF, 0xFF];
    assert_eq!(read_u32(&bytes, 1), 0x1234_5678);
    assert_eq!(read_u32(&bytes, 5), u32::MAX);
}

#[test]
fn reads_64_bits_little_endian_at_odd_offset() {
    let mut bytes = vec![0xAA_u8; 3];
    bytes.extend_from_slice(&0x0123_4567_89AB_CDEF_u64.to_le_bytes());
    bytes.extend_from_slice(&u64::MAX.to_le_bytes());
    assert_eq!(read_u64(&bytes, 3), 0x0123_4567_89AB_CDEF);
    assert_eq!(read_u64(&bytes, 11), u64::MAX);
}

#[test]
fn reads_agree_with_std() {
    let bytes: Vec<u8> = (0..32_u8).map(|x| x.wrapping_mul(37).wrapping_add(11)).collect();
    for at in 0..24 {
        assert_eq!(read_u16(&bytes, at), u16::from_le_bytes([bytes[at], bytes[at + 1]]));
        let mut four = [0_u8; 4];
        four.copy_from_slice(&bytes[at..at + 4]);
        assert_eq!(read_u32(&bytes, at), u32::from_le_bytes(four));
        let mut eight = [0_u8; 8];
        eight.copy_from_slice(&bytes[at..at + 8]);
        assert_eq!(read_u64(&bytes, at), u64::from_le_bytes(eight));
    }
}

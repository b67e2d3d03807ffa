use bean_boot::addr::{PAddr, VAddr};

#[test]
fn canonical_low_address_is_kept() {
    assert_eq!(VAddr::from(0x0000_7FFF_FFFF_FFFF).as_u64(), 0x0000_7FFF_FFFF_FFFF);
    assert_eq!(VAddr::from(0x1234).as_u64(), 0x1234);
}

#[test]
fn canonical_high_address_is_kept() {
    assert_eq!(VAddr::from(0xFFFF_8000_0000_0000).as_u64(), 0xFFFF_8000_0000_0000);
    assert_eq!(VAddr::from(0xFFFF_FFFF_FFFF_FFFF).as_u64(), 0xFFFF_FFFF_FFFF_FFFF);
}

#[test]
fn bit_47_set_extends_to_ones() {
    assert_eq!(VAddr::from(0x0000_8000_0000_0000).as_u64(), 0xFFFF_8000_0000_0000);
    assert_eq!(VAddr::from(0x1234_8000_0000_0042).as_u64(), 0xFFFF_8000_0000_0042);
}

#[test]
fn bit_47_clear_extends_to_zeros() {
    assert_eq!(VAddr::from(0xFFFF_7FFF_FFFF_FFFF).as_u64(), 0x0000_7FFF_FFFF_FFFF);
    assert_eq!(VAddr::from(0x8000_0000_0000_0001).as_u64(), 0x0000_0000_0000_0001);
}

#[test]
fn result_is_always_canonical() {
    let samples: [u64; 8] = [
        0,
        1,
        0x0000_8000_0000_0000,
        0x0001_0000_0000_0000,
        0x7FFF_FFFF_FFFF_FFFF,
        0x8000_0000_0000_0000,
        0xDEAD_BEEF_CAFE_F00D,
        u64::MAX,
    ];
    for value in samples {
        let address = VAddr::from(value).as_u64();
        let upper = address >> 47;
        assert!(upper == 0 || upper == 0x1FFFF);
        assert_eq!(address & 0x0000_FFFF_FFFF_FFFF, value & 0x0000_FFFF_FFFF_FFFF);
    }
}

#[test]
fn virtual_zero_is_zero() {
    assert_eq!(VAddr::zero().as_u64(), 0);
    assert_eq!(VAddr::zero(), VAddr::from(0));
}

#[test]
fn physical_address_drops_high_bits() {
    assert_eq!(PAddr::from(0xFFF0_0000_0000_1234).as_u64(), 0x0000_0000_0000_1234);
    assert_eq!(PAddr::from(u64::MAX).as_u64(), 0x000F_FFFF_FFFF_FFFF);
    assert_eq!(PAddr::from(0x0010_0000_0000_0000).as_u64(), 0);
}

#[test]
fn physical_address_keeps_low_52_bits() {
    assert_eq!(PAddr::from(0x000F_FFFF_FFFF_FFFF).as_u64(), 0x000F_FFFF_FFFF_FFFF);
    assert_eq!(PAddr::from(0x4000_0000).as_u64(), 0x4000_0000);
    let samples: [u64; 4] = [0x8000_0000_0000_0001, 0xABCD_EF01_2345_6789, 0x0008_0000_0000_0000, 7];
    for value in samples {
        let address = PAddr::from(value).as_u64();
        assert_eq!(address >> 52, 0);
        assert_eq!(address, value & ((1_u64 << 52) - 1));
    }
}

#[test]
fn physical_zero_is_zero() {
    assert_eq!(PAddr::zero().as_u64(), 0);
    assert_eq!(PAddr::zero(), PAddr::from(0));
}

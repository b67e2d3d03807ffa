use bean_boot::page_table::{
    table_indices, PageDir, TableIndices, ACCESSED, ALL_FLAGS, DIRTY, HUGE_PAGE, PRESENT, WRITE,
};

#[test]
fn each_flag_has_its_bit() {
    assert_eq!(PageDir::present().bits(), 1 << 0);
    assert_eq!(PageDir::write().bits(), 1 << 1);
    assert_eq!(PageDir::accessed().bits(), 1 << 5);
    assert_eq!(PageDir::dirty().bits(), 1 << 6);
    assert_eq!(PageDir::huge_page().bits(), 1 << 7);
    assert_eq!(PageDir::empty().bits(), 0);
    assert_eq!(PRESENT | WRITE | ACCESSED | DIRTY | HUGE_PAGE, ALL_FLAGS);
}

#[test]
fn union_joins_the_bits() {
    let huge = PageDir::present() | PageDir::write() | PageDir::huge_page();
    assert_eq!(huge.bits(), 0x83);
    let table = PageDir::present().union(PageDir::write());
    assert_eq!(table.bits(), 0x03);
    assert_eq!(table | table, table);
    assert_eq!(PageDir::empty() | PageDir::dirty(), PageDir::dirty());
}

#[test]
fn contains_asks_for_every_flag() {
    let huge = PageDir::present() | PageDir::write() | PageDir::huge_page();
    assert!(huge.contains(PageDir::present()));
    assert!(huge.contains(PageDir::present() | PageDir::huge_page()));
    assert!(huge.contains(PageDir::empty()));
    assert!(!huge.contains(PageDir::dirty()));
    assert!(!huge.contains(PageDir::present() | PageDir::accessed()));
}

#[test]
fn indices_of_the_4mib_mark() {
    assert_eq!(table_indices(0x40_0000), TableIndices { pml4: 0, pdpt: 0, pd: 2, pt: 0 });
}

#[test]
fn indices_take_nine_bits_each() {
    assert_eq!(table_indices(0), TableIndices { pml4: 0, pdpt: 0, pd: 0, pt: 0 });
    assert_eq!(table_indices(0x1000), TableIndices { pml4: 0, pdpt: 0, pd: 0, pt: 1 });
    assert_eq!(table_indices(0x8000_0000), TableIndices { pml4: 0, pdpt: 2, pd: 0, pt: 0 });
    assert_eq!(
        table_indices(0xFFFF_FFFF_FFFF_FFFF),
        TableIndices { pml4: 511, pdpt: 511, pd: 511, pt: 511 }
    );
    assert_eq!(
        table_indices(0xFFFF_8000_0020_3000),
        TableIndices { pml4: 256, pdpt: 0, pd: 1, pt: 3 }
    );
    let address: u64 = (5 << 39) | (6 << 30) | (7 << 21) | (8 << 12) | 0xABC;
    assert_eq!(table_indices(address), TableIndices { pml4: 5, pdpt: 6, pd: 7, pt: 8 });
}

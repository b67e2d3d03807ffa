//! Page-table entries: the flag bits, the entries that the identity mapping
//! writes, and the table indices of a virtual address.

use vstd::prelude::*;

verus! {

/// The entry maps something.
pub const PRESENT: u64 = 0x01;

/// What the entry maps may be written to.
pub const WRITE: u64 = 0x02;

/// What the entry maps was read or written.
pub const ACCESSED: u64 = 0x20;

/// What the entry maps was written.
pub const DIRTY: u64 = 0x40;

/// The entry maps a huge page, not a further table.
pub const HUGE_PAGE: u64 = 0x80;

/// All five flag bits.
pub const ALL_FLAGS: u64 = 0xE3;

/// A set of page-table entry flags, held as their bits.
#[derive(Clone, Copy, Debug, PartialEq, Eq)]
pub struct PageDir {
    bits: u64,
}

impl PageDir {
    #[verifier::type_invariant]
    spec fn inv(self) -> bool {
        self.bits & !ALL_FLAGS == 0
    }

    /// The bits of the flags in the set.
    pub closed spec fn view(&self) -> u64 {
        self.bits
    }

    /// The set without flags.
    pub fn empty() -> (r: PageDir)
        ensures
            r@ == 0,
    {
        assert(0u64 & !0xE3u64 == 0) by (bit_vector);
        PageDir { bits: 0 }
    }

    /// The set that holds `Present` alone.
    pub fn present() -> (r: PageDir)
        ensures
            r@ == PRESENT,
    {
        assert(0x01u64 & !0xE3u64 == 0) by (bit_vector);
        PageDir { bits: PRESENT }
    }

    /// The set that holds `Write` alone.
    pub fn write() -> (r: PageDir)
        ensures
            r@ == WRITE,
    {
        assert(0x02u64 & !0xE3u64 == 0) by (bit_vector);
        PageDir { bits: WRITE }
    }

    /// The set that holds `Accessed` alone.
    pub fn accessed() -> (r: PageDir)
        ensures
            r@ == ACCESSED,
    {
        assert(0x20u64 & !0xE3u64 == 0) by (bit_vector);
        PageDir { bits: ACCESSED }
    }

    /// The set that holds `Dirty` alone.
    pub fn dirty() -> (r: PageDir)
        ensures
            r@ == DIRTY,
    {
        assert(0x40u64 & !0xE3u64 == 0) by (bit_vector);
        PageDir { bits: DIRTY }
    }

    /// The set that holds `HugePage` alone.
    pub fn huge_page() -> (r: PageDir)
        ensures
            r@ == HUGE_PAGE,
    {
        assert(0x80u64 & !0xE3u64 == 0) by (bit_vector);
        PageDir { bits: HUGE_PAGE }
    }

    /// The bits of the flags in the set, as they stand in an entry.
    pub fn bits(&self) -> (r: u64)
        ensures
            r == self@,
            r & !ALL_FLAGS == 0,
            r <= ALL_FLAGS,
    {
        proof {
            use_type_invariant(self);
        }
        let bits: u64 = self.bits;
        assert(bits <= 0xE3) by (bit_vector)
            requires
                bits & !0xE3u64 == 0,
        ;
        bits
    }

    /// The flags that are in `self` or in `other`.
    pub fn union(self, other: PageDir) -> (r: PageDir)
        ensures
            r@ == self@ | other@,
    {
        proof {
            use_type_invariant(self);
            use_type_invariant(other);
        }
        let a: u64 = self.bits;
        let b: u64 = other.bits;
        assert((a | b) & !0xE3u64 == 0) by (bit_vector)
            requires
                a & !0xE3u64 == 0,
                b & !0xE3u64 == 0,
        ;
        PageDir { bits: a | b }
    }

    /// Every flag of `other` is in `self`.
    pub fn contains(&self, other: PageDir) -> (r: bool)
        ensures
            r == (self@ & other@ == other@),
    {
        self.bits & other.bits == other.bits
    }
}

impl vstd::std_specs::ops::BitOrSpecImpl for PageDir {
    open spec fn obeys_bitor_spec() -> bool {
        true
    }

    open spec fn bitor_req(self, other: PageDir) -> bool {
        true
    }

    closed spec fn bitor_spec(self, other: PageDir) -> PageDir {
        PageDir { bits: self.bits | other.bits }
    }
}

impl core::ops::BitOr for PageDir {
    type Output = PageDir;

    fn bitor(self, other: PageDir) -> (r: PageDir)
        ensures
            r@ == self@ | other@,
    {
        self.union(other)
    }
}

/// The bits of an entry that hold flags: the low twelve.
pub const FLAG_BITS: u64 = 0xFFF;

/// The physical address that an entry points to: the entry without its low
/// twelve bits.
pub open spec fn entry_address(entry: u64) -> u64 {
    entry & !FLAG_BITS
}

/// The low twelve bits of an entry, which hold its flags.
pub open spec fn entry_flags(entry: u64) -> u64 {
    entry & FLAG_BITS
}

/// An entry made of a 4 KiB aligned address and of flags keeps both apart:
/// the address can be read back from it, and so can the flags. Putting the
/// two together with `|` is adding them.
pub proof fn lemma_entry_fields(address: u64, flags: u64)
    requires
        address % 4096 == 0,
        flags <= FLAG_BITS,
    ensures
        address | flags == address + flags,
        entry_address(address | flags) == address,
        entry_flags(address | flags) == flags,
{
    assert(address | flags == address + flags && (address | flags) & !0xFFFu64 == address && (
    address | flags) & 0xFFFu64 == flags) by (bit_vector)
        requires
            address % 4096 == 0,
            flags <= 0xFFFu64,
    ;
}

/// The four table indices of a virtual address, from the top-level table
/// down.
#[derive(Clone, Copy, Debug, PartialEq, Eq)]
pub struct TableIndices {
    /// Index into the top-level table (bits 39 to 47 of the address).
    pub pml4: usize,
    /// Index into the page-directory-pointer table (bits 30 to 38).
    pub pdpt: usize,
    /// Index into the page directory (bits 21 to 29).
    pub pd: usize,
    /// Index into the page table (bits 12 to 20).
    pub pt: usize,
}

/// The nine bits of `vaddr` from bit `shift` on.
pub open spec fn table_index(vaddr: u64, shift: u64) -> u64 {
    (vaddr >> shift) & 0x1FF
}

/// The four table indices of `vaddr`: the address divided by the size of
/// what one entry of the table maps, modulo the 512 entries of a table.
pub open spec fn spec_table_indices(vaddr: u64) -> TableIndices {
    TableIndices {
        pml4: (vaddr / 0x80_0000_0000 % 512) as usize,
        pdpt: (vaddr / 0x4000_0000 % 512) as usize,
        pd: (vaddr / 0x20_0000 % 512) as usize,
        pt: (vaddr / 0x1000 % 512) as usize,
    }
}

/// Each table index is nine bits of the address: the address shifted right
/// by 39, 30, 21 or 12 bits and masked to nine bits.
pub proof fn lemma_table_index(vaddr: u64)
    ensures
        spec_table_indices(vaddr).pml4 == table_index(vaddr, 39),
        spec_table_indices(vaddr).pdpt == table_index(vaddr, 30),
        spec_table_indices(vaddr).pd == table_index(vaddr, 21),
        spec_table_indices(vaddr).pt == table_index(vaddr, 12),
{
    assert((vaddr >> 39) & 0x1FF == vaddr / 0x80_0000_0000 % 512 && (vaddr >> 30) & 0x1FF == vaddr
        / 0x4000_0000 % 512 && (vaddr >> 21) & 0x1FF == vaddr / 0x20_0000 % 512 && (vaddr >> 12)
        & 0x1FF == vaddr / 0x1000 % 512) by (bit_vector);
}

/// Splits a virtual address into its four table indices, for a walk from
/// the top-level table down.
#[verifier::when_used_as_spec(spec_table_indices)]
pub fn table_indices(vaddr: u64) -> (r: TableIndices)
    ensures
        r == spec_table_indices(vaddr),
        r.pml4 == table_index(vaddr, 39),
        r.pdpt == table_index(vaddr, 30),
        r.pd == table_index(vaddr, 21),
        r.pt == table_index(vaddr, 12),
        r.pml4 < 512 && r.pdpt < 512 && r.pd < 512 && r.pt < 512,
{
    proof {
        lemma_table_index(vaddr);
    }
    let pml4: u64 = (vaddr >> 39) % 512;
    let pdpt: u64 = (vaddr >> 30) % 512;
    let pd: u64 = (vaddr >> 21) % 512;
    let pt: u64 = (vaddr >> 12) % 512;
    assert(pml4 == (vaddr >> 39) & 0x1FF && pdpt == (vaddr >> 30) & 0x1FF && pd == (vaddr >> 21)
        & 0x1FF && pt == (vaddr >> 12) & 0x1FF) by (bit_vector)
        requires
            pml4 == (vaddr >> 39) % 512,
            pdpt == (vaddr >> 30) % 512,
            pd == (vaddr >> 21) % 512,
            pt == (vaddr >> 12) % 512,
    ;
    TableIndices { pml4: pml4 as usize, pdpt: pdpt as usize, pd: pd as usize, pt: pt as usize }
}

} // verus!

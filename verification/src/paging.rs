//! Page sizes and virtual pages.

use crate::addr::{is_canonical, VAddr};
use core::marker::PhantomData;
use vstd::prelude::*;

verus! {

/// `size` is one of the three page sizes of the architecture: 4 KiB, 2 MiB
/// or 1 GiB.
pub open spec fn supported_size(size: u64) -> bool {
    size == 4096 || size == 4096 * 512 || size == 4096 * 512 * 512
}

/// `address` rounded down to a multiple of `size`.
pub open spec fn align_down(address: u64, size: u64) -> u64 {
    (address - address % size) as u64
}

/// Rounding down to a page boundary is clearing the bits below the page
/// size. The result is a multiple of the size, and the address lies less
/// than one page above it.
pub proof fn lemma_align_down(address: u64, size: u64)
    requires
        supported_size(size),
    ensures
        align_down(address, size) == address & !((size - 1) as u64),
        align_down(address, size) % size == 0,
        align_down(address, size) <= address < align_down(address, size) + size,
{
    if size == 4096 {
        assert(address & !((4096u64 - 1) as u64) == address - address % 4096) by (bit_vector);
        assert((address - address % 4096) % 4096 == 0);
    } else if size == 4096 * 512 {
        assert(address & !((0x20_0000u64 - 1) as u64) == address - address % 0x20_0000)
            by (bit_vector);
        assert((address - address % 0x20_0000) % 0x20_0000 == 0);
    } else {
        assert(address & !((0x4000_0000u64 - 1) as u64) == address - address % 0x4000_0000)
            by (bit_vector);
        assert((address - address % 0x4000_0000) % 0x4000_0000 == 0);
    }
}

/// A page size of the architecture, as a type.
pub trait PageSize {
    /// The size in bytes.
    const SIZE: u64;

    /// The size is one of the three that the architecture has.
    proof fn size_is_supported()
        ensures
            supported_size(Self::SIZE),
    ;
}

/// Standard 4 KiB page size. Only the type is used; its one value stands for
/// nothing.
pub enum Page4KiB {
    Marker,
}

impl PageSize for Page4KiB {
    const SIZE: u64 = 4096;

    proof fn size_is_supported() {
    }
}

/// 2 MiB hugepage.
pub enum Page2MiB {
    Marker,
}

impl PageSize for Page2MiB {
    const SIZE: u64 = 4096 * 512;

    proof fn size_is_supported() {
    }
}

/// 1 GiB hugepage.
pub enum Page1GiB {
    Marker,
}

impl PageSize for Page1GiB {
    const SIZE: u64 = 4096 * 512 * 512;

    proof fn size_is_supported() {
    }
}

/// The sizes of the three page size types.
pub proof fn lemma_page_sizes()
    ensures
        Page4KiB::SIZE == 4096,
        Page2MiB::SIZE == 0x20_0000,
        Page1GiB::SIZE == 0x4000_0000,
{
}

/// A virtual page: a canonical virtual address that is a multiple of the
/// page size.
pub struct Page<S: PageSize = Page4KiB> {
    start_addr: u64,
    size: PhantomData<S>,
}

impl<S: PageSize> Page<S> {
    #[verifier::type_invariant]
    spec fn inv(self) -> bool {
        self.start_addr % S::SIZE == 0 && is_canonical(self.start_addr)
    }

    /// The address at which the page starts.
    pub closed spec fn view(&self) -> u64 {
        self.start_addr
    }

    /// The page in which `address` lies.
    pub fn containing_address(address: VAddr) -> (r: Page<S>)
        ensures
            r@ == align_down(address@, S::SIZE),
            r@ == address@ & !((S::SIZE - 1) as u64),
            r@ % S::SIZE == 0,
            r@ <= address@ < r@ + S::SIZE,
            is_canonical(r@),
    {
        let raw: u64 = address.as_u64();
        let size: u64 = S::SIZE;
        proof {
            S::size_is_supported();
            lemma_align_down(raw, size);
        }
        let start: u64 = raw & !(size - 1);
        assert(start >> 47 == raw >> 47) by (bit_vector)
            requires
                start == raw & !((size - 1) as u64),
                size == 4096 || size == 4096 * 512 || size == 4096 * 512 * 512,
        ;
        Page { start_addr: start, size: PhantomData }
    }

    /// The address at which the page starts.
    pub fn start_addr(&self) -> (r: u64)
        ensures
            r == self@,
            r % S::SIZE == 0,
            is_canonical(r),
    {
        proof {
            use_type_invariant(self);
        }
        self.start_addr
    }
}

} // verus!

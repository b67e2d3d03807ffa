//! Physical memory frames.

use crate::paging::{align_down, lemma_align_down, lemma_page_sizes, Page4KiB, PageSize};
use core::marker::PhantomData;
use vstd::prelude::*;

verus! {

/// The number of 64-bit entries in one page table, which fills one 4 KiB
/// frame.
pub const TABLE_ENTRIES: usize = 512;

/// `memory` with the 512 words from index `at` on set to zero.
pub open spec fn zeroed(memory: Seq<u64>, at: int) -> Seq<u64> {
    Seq::new(
        memory.len(),
        |w: int|
            if at <= w < at + TABLE_ENTRIES {
                0u64
            } else {
                memory[w]
            },
    )
}

/// A physical memory frame: a physical address that is a multiple of the
/// page size.
pub struct Frame<S: PageSize = Page4KiB> {
    start_addr: u64,
    size: PhantomData<S>,
}

impl<S: PageSize> Frame<S> {
    #[verifier::type_invariant]
    spec fn inv(self) -> bool {
        self.start_addr % S::SIZE == 0
    }

    /// The address at which the frame starts.
    pub closed spec fn view(&self) -> u64 {
        self.start_addr
    }

    /// The frame in which `address` lies.
    pub fn containing_address(address: u64) -> (r: Frame<S>)
        ensures
            r@ == align_down(address, S::SIZE),
            r@ == address & !((S::SIZE - 1) as u64),
            r@ % S::SIZE == 0,
            r@ <= address < r@ + S::SIZE,
    {
        let size: u64 = S::SIZE;
        proof {
            S::size_is_supported();
            lemma_align_down(address, size);
        }
        Frame { start_addr: address & !(size - 1), size: PhantomData }
    }

    /// The address at which the frame starts.
    pub fn start_addr(&self) -> (r: u64)
        ensures
            r == self@,
            r % S::SIZE == 0,
    {
        proof {
            use_type_invariant(self);
        }
        self.start_addr
    }

    /// Fills the frame's first 512 words with zeros: the frame is then an
    /// empty page table. `memory` holds the frame's words from index `at`
    /// on.
    pub fn clear(&self, memory: &mut [u64], at: usize)
        requires
            at + TABLE_ENTRIES <= old(memory).len(),
        ensures
            final(memory)@ == zeroed(old(memory)@, at as int),
    {
        let mut i: usize = 0;
        while i < TABLE_ENTRIES
            invariant
                i <= TABLE_ENTRIES,
                at + TABLE_ENTRIES <= memory.len(),
                memory@.len() == old(memory)@.len(),
                forall|w: int|
                    0 <= w < memory@.len() ==> memory@[w] == if at <= w < at + i {
                        0u64
                    } else {
                        old(memory)@[w]
                    },
            decreases TABLE_ENTRIES - i,
        {
            memory[at + i] = 0_u64;
            i += 1;
        }
    }
}

impl Frame<Page4KiB> {
    /// Moves the frame `other` frames of 4 KiB up.
    pub fn add_assign(&mut self, other: u64)
        requires
            old(self)@ + other * 4096 <= u64::MAX,
        ensures
            final(self)@ == old(self)@ + other * 4096,
        no_unwind
    {
        proof {
            use_type_invariant(&*self);
            lemma_page_sizes();
            assert((self.start_addr + other * 4096) % 4096 == 0);
        }
        self.start_addr += other * 4096;
    }
}

} // verus!

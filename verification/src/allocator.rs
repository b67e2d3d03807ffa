//! The frame allocator and the page-table builder that it drives.

use crate::fatal::Fatal;
use crate::frame::{Frame, TABLE_ENTRIES};
use crate::memory::{MemRegion, MemoryMap, USABLE};
use crate::page_table::{
    entry_address, entry_flags, lemma_entry_fields, PageDir, HUGE_PAGE, PRESENT, WRITE,
};
use crate::paging::lemma_page_sizes;
use vstd::prelude::*;

verus! {

/// One GiB: the physical memory below it is identity mapped before this
/// library runs, and each page directory maps as much.
pub const GIB: u64 = 0x4000_0000;

/// The size of the huge pages that the identity mapping is made of: 2 MiB.
pub const HUGE_SIZE: u64 = 0x20_0000;

/// The size of the frames that the allocator hands out: 4 KiB.
pub const FRAME_SIZE: u64 = 0x1000;

/// The flags of an entry that maps a huge page: present, writable, huge.
pub const HUGE_FLAGS: u64 = 0x83;

/// The flags of an entry that points to a table: present, writable.
pub const TABLE_FLAGS: u64 = 0x03;

/// The most page directories that can be entered in the root table: its
/// first slot stays as it is.
pub const MAX_TABLES: u64 = 511;

/// The region is usable and holds the 4 KiB frame at `address`.
pub open spec fn fits(region: MemRegion, address: u64) -> bool {
    region.usable() && region.holds_frame(address as int)
}

/// `index` is the place of the first region, in the firmware's order, that
/// is usable and holds the frame at `address`.
pub open spec fn is_first_fit(regions: Seq<MemRegion>, address: u64, index: int) -> bool {
    &&& 0 <= index < regions.len()
    &&& fits(regions[index], address)
    &&& forall|j: int| 0 <= j < index ==> !fits(#[trigger] regions[j], address)
}

/// The test that picks the usable regions.
pub open spec fn is_usable() -> spec_fn(MemRegion) -> bool {
    |region: MemRegion| region.usable()
}

/// The usable regions of a memory map, in its order.
pub open spec fn usable_regions(regions: Seq<MemRegion>) -> Seq<MemRegion> {
    regions.filter(is_usable())
}

/// The number of whole GiB that lie between the 1 GiB mark and `top`, the
/// last address of the physical memory.
pub open spec fn tables_needed(top: u64) -> int {
    (top + 1 - GIB) / (GIB as int)
}

/// The memory above the 1 GiB mark, up to the last address `top`, is a
/// whole number of GiB.
pub open spec fn whole_gib(top: u64) -> bool {
    top + 1 >= GIB && (top + 1 - GIB) % (GIB as int) == 0
}

/// The entry that maps the huge page number `index`, counted from the 1 GiB
/// mark: its physical address with the flags present, writable and huge.
pub open spec fn huge_entry(index: int) -> u64 {
    (GIB + index * HUGE_SIZE + HUGE_FLAGS) as u64
}

/// The entry that points to the table in the frame at `frame`: the frame's
/// address with the flags present and writable.
pub open spec fn table_pointer(frame: int) -> u64 {
    (frame + TABLE_FLAGS) as u64
}

/// The memory at the allocator's cursor after `tables` page directories
/// were written to it, one per frame: word `w` maps the huge page number
/// `w`. What lies behind them is as before.
pub open spec fn mapped_frames(before: Seq<u64>, tables: int) -> Seq<u64> {
    Seq::new(
        before.len(),
        |w: int|
            if 0 <= w < TABLE_ENTRIES * tables {
                huge_entry(w)
            } else {
                before[w]
            },
    )
}

/// The root table after `tables` page directories were entered in it: slot
/// `s` from 1 to `tables` points to the frame number `s - 1`, counted from
/// `first_frame`. The other slots are as before.
pub open spec fn mapped_root(before: Seq<u64>, first_frame: u64, tables: int) -> Seq<u64> {
    Seq::new(
        before.len(),
        |s: int|
            if 1 <= s <= tables {
                table_pointer(first_frame + (s - 1) * FRAME_SIZE)
            } else {
                before[s]
            },
    )
}

/// An entry of the identity mapping is the huge page's address with the
/// flags set in it, and both can be read back from it.
pub proof fn lemma_huge_entry(index: int)
    requires
        0 <= index <= TABLE_ENTRIES * MAX_TABLES,
    ensures
        huge_entry(index) == ((GIB + index * HUGE_SIZE) as u64) | HUGE_FLAGS,
        entry_address(huge_entry(index)) == GIB + index * HUGE_SIZE,
        entry_flags(huge_entry(index)) == HUGE_FLAGS,
{
    let address = (GIB + index * HUGE_SIZE) as u64;
    assert(address % 4096 == 0);
    lemma_entry_fields(address, HUGE_FLAGS);
}

/// An entry that points to a table is the address of the table's frame
/// with the flags set in it, and both can be read back from it.
pub proof fn lemma_table_pointer(frame: u64)
    requires
        frame % 4096 == 0,
    ensures
        table_pointer(frame as int) == frame | TABLE_FLAGS,
        entry_address(table_pointer(frame as int)) == frame,
        entry_flags(table_pointer(frame as int)) == TABLE_FLAGS,
{
    lemma_entry_fields(frame, TABLE_FLAGS);
}

/// Where the last address of the physical memory is `GIB + k * GIB - 1`,
/// the memory above the first GiB is a whole number of GiB, and `k` page
/// directories map it.
pub proof fn lemma_tables_needed(k: int)
    requires
        0 <= k,
        GIB + k * GIB - 1 <= u64::MAX,
    ensures
        whole_gib((GIB + k * GIB - 1) as u64),
        tables_needed((GIB + k * GIB - 1) as u64) == k,
{
}

/// What the identity mapping of `tables` GiB leaves behind: slot `slot` of
/// the root table, from 1 to `tables`, points to the frame number
/// `slot - 1` from the cursor on, present and writable; entry `entry` of
/// the table in that frame maps, present, writable and huge, the physical
/// address `GIB + (slot - 1) * GIB + entry * HUGE_SIZE`, so that the
/// addresses go up in steps of 2 MiB from the start of the table's GiB.
pub proof fn lemma_identity_mapping(
    root_before: Seq<u64>,
    frames_before: Seq<u64>,
    first_frame: u64,
    tables: int,
    slot: int,
    entry: int,
)
    requires
        0 <= tables <= MAX_TABLES,
        first_frame % 4096 == 0,
        first_frame + tables * FRAME_SIZE <= u64::MAX,
        root_before.len() == TABLE_ENTRIES,
        frames_before.len() >= TABLE_ENTRIES * tables,
        1 <= slot <= tables,
        0 <= entry < TABLE_ENTRIES,
    ensures
        ({
            let root = mapped_root(root_before, first_frame, tables);
            let frames = mapped_frames(frames_before, tables);
            let word = frames[TABLE_ENTRIES * (slot - 1) + entry];
            &&& entry_address(root[slot]) == first_frame + (slot - 1) * FRAME_SIZE
            &&& entry_flags(root[slot]) == PRESENT + WRITE
            &&& entry_address(word) == GIB + (slot - 1) * GIB + entry * HUGE_SIZE
            &&& entry_flags(word) == PRESENT + WRITE + HUGE_PAGE
        }),
{
    lemma_table_pointer((first_frame + (slot - 1) * FRAME_SIZE) as u64);
    lemma_huge_entry(TABLE_ENTRIES * (slot - 1) + entry);
}

/// A memory map in which no region has the type code 1 has no usable
/// region, and no frame fits into any of its regions.
pub proof fn lemma_no_usable_regions(regions: Seq<MemRegion>)
    requires
        forall|i: int| 0 <= i < regions.len() ==> (#[trigger] regions[i]).reg_type != USABLE,
    ensures
        usable_regions(regions).len() == 0,
        forall|i: int, address: u64|
            0 <= i < regions.len() ==> !(#[trigger] fits(regions[i], address)),
    decreases regions.len(),
{
    reveal(Seq::filter);
    if regions.len() > 0 {
        lemma_no_usable_regions(regions.drop_last());
    }
}

/// A rudimentary page frame allocator: a cursor that only moves up through
/// one usable region of the memory map. It never takes a frame back.
pub struct FrameAllocator<'a> {
    memory_map: MemoryMap<'a>,
    current_region: MemRegion,
    next_frame: Frame,
}

impl<'a> FrameAllocator<'a> {
    #[verifier::type_invariant]
    spec fn inv(self) -> bool {
        &&& self.memory_map.wf()
        &&& self.memory_map@.contains(self.current_region)
        &&& self.current_region.usable()
        &&& self.current_region.holds_frame(self.next_frame@ as int)
        &&& self.next_frame@ % 4096 == 0
    }

    /// The memory map that the allocator was made with.
    pub closed spec fn spec_memory_map(&self) -> MemoryMap<'a> {
        self.memory_map
    }

    /// The region that the allocator takes its frames from.
    pub closed spec fn spec_current_region(&self) -> MemRegion {
        self.current_region
    }

    /// The address of the next free frame.
    pub closed spec fn spec_next_frame(&self) -> u64 {
        self.next_frame@
    }

    /// What holds of every allocator: its region is a usable region of its
    /// memory map, and its next free frame lies within that region.
    pub open spec fn wf(&self) -> bool {
        &&& self.spec_memory_map().wf()
        &&& self.spec_memory_map()@.contains(self.spec_current_region())
        &&& self.spec_current_region().usable()
        &&& self.spec_current_region().holds_frame(self.spec_next_frame() as int)
        &&& self.spec_next_frame() % 4096 == 0
    }

    /// The allocator can give out its next free frame and still have one:
    /// the frame after it lies within the current region too.
    pub open spec fn has_room(&self) -> bool {
        self.spec_current_region().holds_frame(self.spec_next_frame() + FRAME_SIZE)
    }

    /// Why `identity_map_all` fails on this allocator, if it does.
    pub open spec fn map_all_error(&self) -> Option<Fatal> {
        let top = self.spec_memory_map().spec_max_addr();
        let tables = tables_needed(top);
        if !whole_gib(top) {
            Some(Fatal::UnsupportedRange)
        } else if tables > MAX_TABLES {
            Some(Fatal::RangeTooLarge)
        } else if tables >= 1 && !self.spec_current_region().holds_frame(
            self.spec_next_frame() + tables * FRAME_SIZE,
        ) {
            Some(Fatal::OutOfFrames)
        } else {
            None
        }
    }

    /// Creates a new allocator that starts at the specified frame. Its
    /// region is the first usable region of the map that holds the frame.
    pub fn starting_at(start_frame: Frame, memory_map: MemoryMap<'a>) -> (r: Result<
        FrameAllocator<'a>,
        Fatal,
    >)
        ensures
            match r {
                Ok(allocator) => {
                    &&& allocator.wf()
                    &&& allocator.spec_memory_map() == memory_map
                    &&& allocator.spec_next_frame() == start_frame@
                    &&& exists|index: int|
                        is_first_fit(memory_map@, start_frame@, index) && memory_map@[index]
                            == allocator.spec_current_region()
                },
                Err(e) => {
                    &&& e == Fatal::InvalidStartFrame
                    &&& forall|index: int|
                        0 <= index < memory_map@.len() ==> !fits(
                            #[trigger] memory_map@[index],
                            start_frame@,
                        )
                },
            },
            usable_regions(memory_map@).len() == 0 ==> r is Err,
    {
        let addr: u64 = start_frame.start_addr();
        proof {
            lemma_page_sizes();
        }
        let len: usize = memory_map.len();
        let mut i: usize = 0;
        while i < len
            invariant
                i <= len,
                len == memory_map@.len(),
                addr == start_frame@,
                addr % 4096 == 0,
                memory_map.wf(),
                forall|j: int| 0 <= j < i ==> !fits(#[trigger] memory_map@[j], addr),
            decreases len - i,
        {
            match memory_map.region(i) {
                Some(region) => {
                    if region.usable() && region.has_frame(addr) {
                        assert(is_first_fit(memory_map@, addr, i as int));
                        assert(memory_map@[i as int] == region);
                        proof {
                            memory_map@.lemma_filter_contains(is_usable(), i as int);
                        }
                        return Ok(
                            FrameAllocator {
                                memory_map,
                                current_region: region,
                                next_frame: start_frame,
                            },
                        );
                    }
                },
                None => {},
            }
            i += 1;
        }
        Err(Fatal::InvalidStartFrame)
    }

    /// Identity maps the physical memory above the first GiB, which is
    /// taken to be mapped already, with 2 MiB huge pages.
    ///
    /// `root` is the page-directory-pointer table of the active address
    /// space. `frames` is the memory at the allocator's cursor: its word
    /// `w` lies `8 * w` bytes above the next free frame. For each GiB the
    /// next free frame is cleared, filled with the 512 entries that map the
    /// GiB, and entered in the next slot of `root`; then the cursor moves
    /// one frame up.
    ///
    /// Nothing is written unless all of it can be: the memory must be a
    /// whole number of GiB that one root table can hold, and the current
    /// region must have a frame for each table and one more for the cursor
    /// to rest on.
    pub fn identity_map_all(&mut self, root: &mut [u64], frames: &mut [u64]) -> (r: Result<
        (),
        Fatal,
    >)
        requires
            old(root).len() == TABLE_ENTRIES,
            old(self).map_all_error() is None ==> old(frames).len() >= TABLE_ENTRIES
                * tables_needed(old(self).spec_memory_map().spec_max_addr()),
        ensures
            match r {
                Ok(()) => {
                    let tables = tables_needed(old(self).spec_memory_map().spec_max_addr());
                    &&& old(self).map_all_error() is None
                    &&& final(self).wf()
                    &&& final(self).spec_memory_map() == old(self).spec_memory_map()
                    &&& final(self).spec_current_region() == old(self).spec_current_region()
                    &&& final(self).spec_next_frame() == old(self).spec_next_frame() + tables
                        * FRAME_SIZE
                    &&& final(root)@ == mapped_root(
                        old(root)@,
                        old(self).spec_next_frame(),
                        tables,
                    )
                    &&& final(frames)@ == mapped_frames(old(frames)@, tables)
                },
                Err(e) => {
                    &&& old(self).map_all_error() == Some(e)
                    &&& *final(self) == *old(self)
                    &&& final(root)@ == old(root)@
                    &&& final(frames)@ == old(frames)@
                },
            },
            !whole_gib(old(self).spec_memory_map().spec_max_addr()) ==> r == Err::<(), Fatal>(
                Fatal::UnsupportedRange,
            ),
    {
        proof {
            use_type_invariant(&*self);
        }
        // the first GiB is identity mapped already
        let phy_start_addr: u64 = GIB;
        let phy_end_addr: u64 = self.memory_map.max_addr();
        if phy_end_addr < phy_start_addr - 1 {
            return Err(Fatal::UnsupportedRange);
        }
        let remaining_size: u64 = phy_end_addr - (phy_start_addr - 1);
        if remaining_size % GIB != 0 {
            return Err(Fatal::UnsupportedRange);
        }
        let needed: u64 = remaining_size / 4096 / 512 / 512;
        assert(needed == tables_needed(phy_end_addr));
        if needed > MAX_TABLES {
            return Err(Fatal::RangeTooLarge);
        }
        let first: u64 = self.next_frame.start_addr();
        if needed >= 1 {
            if first > u64::MAX - needed * FRAME_SIZE || !self.current_region.has_frame(
                first + needed * FRAME_SIZE,
            ) {
                return Err(Fatal::OutOfFrames);
            }
        }
        let needed_pdpes: usize = needed as usize;

        let huge_flags: u64 = (PageDir::present() | PageDir::write() | PageDir::huge_page()).bits();
        let table_flags: u64 = (PageDir::present() | PageDir::write()).bits();
        assert(huge_flags == HUGE_FLAGS && table_flags == TABLE_FLAGS) by (bit_vector)
            requires
                huge_flags == 0x01u64 | 0x02u64 | 0x80u64,
                table_flags == 0x01u64 | 0x02u64,
        ;
        let mut table_entry: u64 = phy_start_addr | huge_flags;
        proof {
            lemma_huge_entry(0);
        }

        let ghost root_before = root@;
        let ghost frames_before = frames@;
        let ghost region = self.current_region;
        let ghost map = self.memory_map;
        let mut i: usize = 0;
        while i < needed_pdpes
            invariant
                i <= needed_pdpes <= MAX_TABLES,
                needed_pdpes == tables_needed(map.spec_max_addr()),
                root.len() == TABLE_ENTRIES,
                frames.len() >= TABLE_ENTRIES * needed_pdpes,
                frames@.len() == frames_before.len(),
                huge_flags == HUGE_FLAGS,
                table_flags == TABLE_FLAGS,
                self.memory_map == map,
                self.current_region == region,
                self.next_frame@ == first + i * FRAME_SIZE,
                first % 4096 == 0,
                region.address <= first,
                needed_pdpes >= 1 ==> region.holds_frame(first + needed_pdpes * FRAME_SIZE),
                table_entry == GIB + (TABLE_ENTRIES * i) * HUGE_SIZE + HUGE_FLAGS,
                root@ == mapped_root(root_before, first, i as int),
                frames@ == mapped_frames(frames_before, i as int),
            decreases needed_pdpes - i,
        {
            let base: usize = i * TABLE_ENTRIES;
            self.next_frame.clear(frames, base);

            let mut j: usize = 0;
            while j < TABLE_ENTRIES
                invariant
                    j <= TABLE_ENTRIES,
                    i < needed_pdpes <= MAX_TABLES,
                    base == i * TABLE_ENTRIES,
                    frames.len() >= TABLE_ENTRIES * needed_pdpes,
                    frames@.len() == frames_before.len(),
                    table_entry == GIB + (base + j) * HUGE_SIZE + HUGE_FLAGS,
                    forall|w: int|
                        0 <= w < frames@.len() ==> frames@[w] == if w < base + j {
                            huge_entry(w)
                        } else if w < base + TABLE_ENTRIES {
                            0u64
                        } else {
                            frames_before[w]
                        },
                decreases TABLE_ENTRIES - j,
            {
                proof {
                    lemma_huge_entry(base + j);
                }
                frames[base + j] = table_entry;
                table_entry += HUGE_SIZE;
                j += 1;
            }

            let frame: u64 = self.next_frame.start_addr();
            proof {
                lemma_table_pointer(frame);
            }
            root[i + 1] = frame | table_flags;
            self.advance();
            i += 1;
        }
        proof {
            use_type_invariant(&*self);
        }
        Ok(())
    }

    /// Moves the cursor one frame up, if the frame that it then points to
    /// lies within the current region. The allocator does not go on to
    /// another region: where the current one is used up, it fails and stays
    /// as it is.
    pub fn increment(&mut self) -> (r: Result<(), Fatal>)
        ensures
            match r {
                Ok(()) => {
                    &&& old(self).has_room()
                    &&& final(self).wf()
                    &&& final(self).spec_memory_map() == old(self).spec_memory_map()
                    &&& final(self).spec_current_region() == old(self).spec_current_region()
                    &&& final(self).spec_next_frame() == old(self).spec_next_frame() + FRAME_SIZE
                },
                Err(e) => {
                    &&& e == Fatal::OutOfFrames
                    &&& !old(self).has_room()
                    &&& *final(self) == *old(self)
                },
            },
    {
        let next: u64 = self.next_frame.start_addr();
        if next <= u64::MAX - FRAME_SIZE && self.current_region.has_frame(next + FRAME_SIZE) {
            self.advance();
            Ok(())
        } else {
            Err(Fatal::OutOfFrames)
        }
    }

    /// Moves the cursor one frame up.
    fn advance(&mut self)
        requires
            old(self).has_room(),
        ensures
            final(self).wf(),
            final(self).spec_memory_map() == old(self).spec_memory_map(),
            final(self).spec_current_region() == old(self).spec_current_region(),
            final(self).spec_next_frame() == old(self).spec_next_frame() + FRAME_SIZE,
    {
        proof {
            use_type_invariant(&*self);
        }
        self.next_frame.add_assign(1);
    }

    /// The memory map that the allocator was made with.
    pub fn memory_map(&self) -> (r: &MemoryMap<'a>)
        ensures
            *r == self.spec_memory_map(),
            self.wf(),
    {
        proof {
            use_type_invariant(self);
        }
        &self.memory_map
    }

    /// The region that the allocator takes its frames from.
    pub fn current_region(&self) -> (r: MemRegion)
        ensures
            r == self.spec_current_region(),
            self.wf(),
    {
        proof {
            use_type_invariant(self);
        }
        self.current_region
    }

    /// The next free frame.
    pub fn next_frame(&self) -> (r: &Frame)
        ensures
            r@ == self.spec_next_frame(),
            self.wf(),
    {
        proof {
            use_type_invariant(self);
        }
        &self.next_frame
    }
}

} // verus!

//! The memory map that the firmware reports.

use crate::fatal::Fatal;
use crate::packed::{le_u32, le_u64, read_u32, read_u64};
use vstd::prelude::*;

verus! {

/// The size in bytes of one record of the memory map.
pub const REGION_BYTES: usize = 24;

/// The type code of memory that is free to use.
pub const USABLE: u32 = 1;

/// Regions that start above this address (4 GiB) do not count towards the
/// highest address of the map: the allocator cannot track that many frames.
pub const CUTOFF: u64 = 0x1_0000_0000;

/// One entry of the memory map.
#[derive(Clone, Copy, Debug, PartialEq, Eq)]
pub struct MemRegion {
    /// The address at which the region starts.
    pub address: u64,
    /// The length of the region in bytes.
    pub length: u64,
    /// The type code of the region.
    pub reg_type: u32,
    /// The attribute flags of the region.
    pub attr: u32,
}

impl MemRegion {
    /// The region's type code says that its memory is free to use.
    pub open spec fn spec_usable(&self) -> bool {
        self.reg_type == USABLE
    }

    /// Tells whether the region's memory is free to use.
    #[verifier::when_used_as_spec(spec_usable)]
    pub fn usable(&self) -> (r: bool)
        ensures
            r == (self.reg_type == USABLE),
    {
        self.reg_type == USABLE
    }

    /// The last address of the region.
    pub open spec fn last(&self) -> int {
        self.address + self.length - 1
    }

    /// The region starts at or below the cutoff, so that it counts towards
    /// the highest address of the map.
    pub open spec fn counted(&self) -> bool {
        self.address <= CUTOFF
    }

    /// The 4 KiB frame at `address` lies within the region and within the
    /// 64-bit address space.
    pub open spec fn holds_frame(&self, address: int) -> bool {
        &&& self.address <= address
        &&& address + 4096 <= self.address + self.length
        &&& address + 4096 <= 0x1_0000_0000_0000_0000
    }

    /// Tells whether the 4 KiB frame at `address` lies within the region.
    pub fn has_frame(&self, address: u64) -> (r: bool)
        ensures
            r == self.holds_frame(address as int),
    {
        address >= self.address && address <= u64::MAX - 4095 && self.length >= 4096 && address
            - self.address <= self.length - 4096
    }

    /// The region whose record starts at byte `at`: two 64-bit numbers,
    /// address and length, then two 32-bit numbers, type and attributes,
    /// all little endian.
    pub open spec fn decode(bytes: Seq<u8>, at: int) -> MemRegion {
        MemRegion {
            address: le_u64(bytes, at),
            length: le_u64(bytes, at + 8),
            reg_type: le_u32(bytes, at + 16),
            attr: le_u32(bytes, at + 20),
        }
    }

    /// Reads the record that starts at byte `at`. The record may lie at any
    /// offset.
    pub fn read(bytes: &[u8], at: usize) -> (r: MemRegion)
        requires
            at + REGION_BYTES <= bytes.len(),
        ensures
            r == MemRegion::decode(bytes@, at as int),
    {
        MemRegion {
            address: read_u64(bytes, at),
            length: read_u64(bytes, at + 8),
            reg_type: read_u32(bytes, at + 16),
            attr: read_u32(bytes, at + 20),
        }
    }
}

/// The regions that the first `len` records of `bytes` hold, in their order.
pub open spec fn regions_of(bytes: Seq<u8>, len: nat) -> Seq<MemRegion> {
    Seq::new(len, |i: int| MemRegion::decode(bytes, REGION_BYTES * i))
}

/// `top` is the highest last address among the counted regions.
pub open spec fn is_max_addr(regions: Seq<MemRegion>, top: int) -> bool {
    &&& exists|i: int| 0 <= i < regions.len() && regions[i].counted() && regions[i].last() == top
    &&& forall|i: int| 0 <= i < regions.len() && regions[i].counted() ==> regions[i].last() <= top
}

/// Each counted region has a last address, and it is a 64-bit number.
pub open spec fn counted_regions_fit(regions: Seq<MemRegion>) -> bool {
    forall|i: int|
        0 <= i < regions.len() && regions[i].counted() ==> 0 <= regions[i].last() <= u64::MAX
}

/// Why `len` records of `bytes` make no memory map, if they make none.
pub open spec fn map_error(bytes: Seq<u8>, len: nat) -> Option<Fatal> {
    let regions = regions_of(bytes, len);
    if bytes.len() < REGION_BYTES * len {
        Some(Fatal::MemoryMapTruncated)
    } else if !counted_regions_fit(regions) {
        Some(Fatal::MalformedRegion)
    } else if forall|i: int| 0 <= i < regions.len() ==> !regions[i].counted() {
        Some(Fatal::NoRegions)
    } else {
        None
    }
}

/// The memory map: the regions in the order in which the firmware reported
/// them, which is not sorted, and the highest address that the counted
/// regions reach. The regions are read from the firmware's records where
/// they lie.
pub struct MemoryMap<'a> {
    data: &'a [u8],
    len: usize,
    max_addr: u64,
}

impl<'a> MemoryMap<'a> {
    #[verifier::type_invariant]
    spec fn inv(self) -> bool {
        &&& REGION_BYTES * self.len <= self.data.len()
        &&& is_max_addr(regions_of(self.data@, self.len as nat), self.max_addr as int)
    }

    /// The regions of the map, in the firmware's order.
    pub closed spec fn view(&self) -> Seq<MemRegion> {
        regions_of(self.data@, self.len as nat)
    }

    /// The highest address of the map.
    pub closed spec fn spec_max_addr(&self) -> u64 {
        self.max_addr
    }

    /// The map is what `from` makes: its highest address is that of its
    /// counted regions.
    pub open spec fn wf(&self) -> bool {
        is_max_addr(self@, self.spec_max_addr() as int)
    }

    /// Reads `len` records from `data` and finds the highest address that
    /// the regions starting at or below 4 GiB reach.
    pub fn from(data: &'a [u8], len: usize) -> (r: Result<MemoryMap<'a>, Fatal>)
        ensures
            match r {
                Ok(map) => {
                    &&& map_error(data@, len as nat) is None
                    &&& map@ == regions_of(data@, len as nat)
                    &&& map.wf()
                },
                Err(e) => map_error(data@, len as nat) == Some(e),
            },
    {
        if data.len() / REGION_BYTES < len {
            return Err(Fatal::MemoryMapTruncated);
        }
        let ghost regions = regions_of(data@, len as nat);
        let mut max: Option<u64> = None;
        let ghost mut witness: int = 0;
        let mut i: usize = 0;
        while i < len
            invariant
                i <= len,
                REGION_BYTES * len <= data.len(),
                regions == regions_of(data@, len as nat),
                forall|j: int|
                    0 <= j < i && regions[j].counted() ==> 0 <= regions[j].last() <= u64::MAX,
                max is None ==> forall|j: int| 0 <= j < i ==> !regions[j].counted(),
                max matches Some(top) ==> {
                    &&& 0 <= witness < i
                    &&& regions[witness].counted()
                    &&& regions[witness].last() == top
                    &&& forall|j: int| 0 <= j < i && regions[j].counted() ==> regions[j].last() <= top
                },
            decreases len - i,
        {
            let region = MemRegion::read(data, i * REGION_BYTES);
            assert(region == regions[i as int]);
            if region.address <= CUTOFF {
                if region.length == 0 && region.address == 0 {
                    assert(!(0 <= regions[i as int].last()));
                    return Err(Fatal::MalformedRegion);
                }
                let last: u64 = if region.length == 0 {
                    region.address - 1
                } else {
                    match region.address.checked_add(region.length - 1) {
                        Some(last) => last,
                        None => {
                            assert(!(regions[i as int].last() <= u64::MAX));
                            return Err(Fatal::MalformedRegion);
                        },
                    }
                };
                let higher: bool = match max {
                    Some(top) => top < last,
                    None => true,
                };
                if higher {
                    max = Some(last);
                    proof {
                        witness = i as int;
                    }
                }
            }
            i += 1;
        }
        match max {
            Some(top) => {
                assert(regions[witness].counted());
                Ok(MemoryMap { data, len, max_addr: top })
            },
            None => Err(Fatal::NoRegions),
        }
    }

    /// The number of regions.
    pub fn len(&self) -> (r: usize)
        ensures
            r == self@.len(),
            self.wf(),
    {
        proof {
            use_type_invariant(self);
        }
        self.len
    }

    /// The region at `index` in the firmware's order, if the map has that
    /// many.
    pub fn region(&self, index: usize) -> (r: Option<MemRegion>)
        ensures
            r == if index < self@.len() {
                Some(self@[index as int])
            } else {
                None
            },
    {
        proof {
            use_type_invariant(self);
        }
        if index < self.len {
            Some(MemRegion::read(self.data, index * REGION_BYTES))
        } else {
            None
        }
    }

    /// The highest address that a region starting at or below 4 GiB reaches.
    #[verifier::when_used_as_spec(spec_max_addr)]
    pub fn max_addr(&self) -> (r: u64)
        ensures
            r == self.spec_max_addr(),
            self.wf(),
    {
        proof {
            use_type_invariant(self);
        }
        self.max_addr
    }
}

} // verus!

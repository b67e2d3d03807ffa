//! The conditions on which booting cannot go on.

use vstd::prelude::*;

verus! {

/// A condition that ends the boot. None can be recovered from: the caller
/// reports it and halts.
#[derive(Clone, Copy, Debug, PartialEq, Eq, Hash)]
pub enum Fatal {
    /// The memory map's bytes end before its last region does.
    MemoryMapTruncated,
    /// A region of the memory map ends outside the 64-bit address space.
    MalformedRegion,
    /// The memory map has no region that starts at or below 4 GiB.
    NoRegions,
    /// No usable region of the memory map holds the allocator's first frame.
    InvalidStartFrame,
    /// The current region has no frame left after the allocator's cursor.
    OutOfFrames,
    /// The physical memory above the first GiB is not a whole number of GiB.
    UnsupportedRange,
    /// The physical memory above the first GiB is more than one
    /// page-directory-pointer table can map.
    RangeTooLarge,
    /// The image is shorter than an ELF header.
    HeaderTruncated,
    /// The image does not start with the ELF magic number.
    BadMagic,
    /// The image is not a 64-bit ELF file.
    Not64Bit,
    /// The image is not little endian.
    NotLittleEndian,
    /// The image is for another ABI.
    BadAbi,
    /// The image is not an executable.
    NotExecutable,
    /// The program header table does not lie within the image.
    ProgramHeadersOutOfBounds,
    /// The section header table does not lie within the image.
    SectionHeadersOutOfBounds,
    /// A loadable segment's size in the file differs from its size in memory.
    UnsupportedSegment,
    /// A loadable segment is not aligned to 4 KiB.
    MisalignedSegment,
    /// A loadable segment ends outside the 64-bit file offsets.
    SegmentOverflow,
}

impl Fatal {
    /// The line that `message` gives for each condition.
    pub open spec fn message_text(self) -> Seq<char> {
        match self {
            Fatal::MemoryMapTruncated => "Memory map ends before its last region"@,
            Fatal::MalformedRegion => "Memory region ends outside the address space"@,
            Fatal::NoRegions => "no regions in memory map"@,
            Fatal::InvalidStartFrame => "Tried to init allocator in invalid memory region"@,
            Fatal::OutOfFrames => "No frame left in the current memory region"@,
            Fatal::UnsupportedRange => "Physical memory is not a multiple of 1GiB"@,
            Fatal::RangeTooLarge => "Physical memory exceeds one page directory pointer table"@,
            Fatal::HeaderTruncated => "ELF header is incomplete"@,
            Fatal::BadMagic => "Wrong magic number in ELF header"@,
            Fatal::Not64Bit => "64-bit ELF file required"@,
            Fatal::NotLittleEndian => "ELF file needs to be little endian"@,
            Fatal::BadAbi => "Invalid target ABI"@,
            Fatal::NotExecutable => "ELF file needs to be an executable"@,
            Fatal::ProgramHeadersOutOfBounds => "Program headers lie outside the ELF file"@,
            Fatal::SectionHeadersOutOfBounds => "Section headers lie outside the ELF file"@,
            Fatal::UnsupportedSegment => "LOAD segment with different file and memory size"@,
            Fatal::MisalignedSegment => "LOAD segment is not aligned to 4KiB"@,
            Fatal::SegmentOverflow => "LOAD segment ends outside the file offsets"@,
        }
    }

    /// A line for the diagnostic output that names the condition.
    pub fn message(&self) -> (r: &'static str)
        ensures
            r@ == self.message_text(),
    {
        match self {
            Fatal::MemoryMapTruncated => "Memory map ends before its last region",
            Fatal::MalformedRegion => "Memory region ends outside the address space",
            Fatal::NoRegions => "no regions in memory map",
            Fatal::InvalidStartFrame => "Tried to init allocator in invalid memory region",
            Fatal::OutOfFrames => "No frame left in the current memory region",
            Fatal::UnsupportedRange => "Physical memory is not a multiple of 1GiB",
            Fatal::RangeTooLarge => "Physical memory exceeds one page directory pointer table",
            Fatal::HeaderTruncated => "ELF header is incomplete",
            Fatal::BadMagic => "Wrong magic number in ELF header",
            Fatal::Not64Bit => "64-bit ELF file required",
            Fatal::NotLittleEndian => "ELF file needs to be little endian",
            Fatal::BadAbi => "Invalid target ABI",
            Fatal::NotExecutable => "ELF file needs to be an executable",
            Fatal::ProgramHeadersOutOfBounds => "Program headers lie outside the ELF file",
            Fatal::SectionHeadersOutOfBounds => "Section headers lie outside the ELF file",
            Fatal::UnsupportedSegment => "LOAD segment with different file and memory size",
            Fatal::MisalignedSegment => "LOAD segment is not aligned to 4KiB",
            Fatal::SegmentOverflow => "LOAD segment ends outside the file offsets",
        }
    }
}

} // verus!

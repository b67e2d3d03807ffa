//! 64-bit little-endian ELF executables: the file header, the program and
//! section headers, and what a loadable segment needs mapped.

use crate::fatal::Fatal;
use crate::packed::{le_u16, le_u32, le_u64, read_u16, read_u32, read_u64};
use crate::page_table::{table_indices, TableIndices};
use vstd::prelude::*;

verus! {

/// The size in bytes of the file header.
pub const HEADER_BYTES: usize = 64;

/// The size in bytes of one program header.
pub const PROG_HEADER_BYTES: usize = 56;

/// The size in bytes of one section header.
pub const SECT_HEADER_BYTES: usize = 64;

/// The type code of a segment that is to be loaded into memory.
pub const LOAD: u32 = 1;

/// The alignment that a loadable segment must ask for: the 4 KiB of a frame.
pub const SEGMENT_ALIGN: u64 = 4096;

/// A program header: one segment of the file.
#[derive(Clone, Copy, Debug, PartialEq, Eq)]
pub struct ProgramHeader {
    pub prog_type: u32,
    pub flags: u32,
    pub offset: u64,
    pub vaddr: u64,
    pub paddr: u64,
    pub filesz: u64,
    pub memsz: u64,
    pub align: u64,
}

/// A section header.
#[derive(Clone, Copy, Debug, PartialEq, Eq)]
pub struct SectionHeader {
    pub name: u32,
    pub sect_type: u32,
    pub flags: u64,
    pub addr: u64,
    pub offset: u64,
    pub size: u64,
    pub link: u32,
    pub info: u32,
    pub addralign: u64,
    pub entsize: u64,
}

/// What has to be mapped for one loadable segment.
#[derive(Clone, Copy, Debug, PartialEq, Eq)]
pub struct SegmentMapping {
    /// Where the part of the file to map starts: the segment's offset
    /// rounded down to 4 KiB.
    pub file_start: u64,
    /// Where the part of the file to map ends: the end of the segment in the
    /// file rounded up to 4 KiB. The byte at this offset is not mapped.
    pub file_end: u64,
    /// The table indices of the segment's virtual address.
    pub indices: TableIndices,
}

/// `offset` rounded down to a multiple of 4 KiB.
pub open spec fn page_floor(offset: int) -> int {
    offset - offset % 4096
}

/// `offset` rounded up to a multiple of 4 KiB.
pub open spec fn page_ceil(offset: int) -> int {
    page_floor(offset + 4095)
}

impl ProgramHeader {
    /// The program header whose record starts at byte `at`.
    pub open spec fn decode(bytes: Seq<u8>, at: int) -> ProgramHeader {
        ProgramHeader {
            prog_type: le_u32(bytes, at),
            flags: le_u32(bytes, at + 4),
            offset: le_u64(bytes, at + 8),
            vaddr: le_u64(bytes, at + 16),
            paddr: le_u64(bytes, at + 24),
            filesz: le_u64(bytes, at + 32),
            memsz: le_u64(bytes, at + 40),
            align: le_u64(bytes, at + 48),
        }
    }

    /// Reads the program header that starts at byte `at`. The record may lie
    /// at any offset.
    pub fn read(bytes: &[u8], at: usize) -> (r: ProgramHeader)
        requires
            at + PROG_HEADER_BYTES <= bytes.len(),
        ensures
            r == ProgramHeader::decode(bytes@, at as int),
    {
        ProgramHeader {
            prog_type: read_u32(bytes, at),
            flags: read_u32(bytes, at + 4),
            offset: read_u64(bytes, at + 8),
            vaddr: read_u64(bytes, at + 16),
            paddr: read_u64(bytes, at + 24),
            filesz: read_u64(bytes, at + 32),
            memsz: read_u64(bytes, at + 40),
            align: read_u64(bytes, at + 48),
        }
    }

    /// The segment is to be loaded into memory.
    pub open spec fn spec_is_load(&self) -> bool {
        self.prog_type == LOAD
    }

    /// Tells whether the segment is to be loaded into memory.
    #[verifier::when_used_as_spec(spec_is_load)]
    pub fn is_load(&self) -> (r: bool)
        ensures
            r == (self.prog_type == LOAD),
    {
        self.prog_type == LOAD
    }

    /// Why the segment cannot be mapped, if it cannot. A segment that is not
    /// to be loaded is passed over, whatever it holds. One that is must be
    /// as large in the file as in memory, since none is filled with zeros,
    /// must ask for 4 KiB alignment, and must end within the 64-bit file
    /// offsets once rounded up.
    pub open spec fn segment_error(&self) -> Option<Fatal> {
        if !self.is_load() {
            None
        } else if self.filesz != self.memsz {
            Some(Fatal::UnsupportedSegment)
        } else if self.align != SEGMENT_ALIGN {
            Some(Fatal::MisalignedSegment)
        } else if self.offset + self.filesz + 4095 > u64::MAX {
            Some(Fatal::SegmentOverflow)
        } else {
            None
        }
    }

    /// What has to be mapped for the segment: the part of the file between
    /// its offset rounded down and its end rounded up, at the table indices
    /// of its virtual address.
    pub open spec fn spec_mapping(&self) -> SegmentMapping {
        SegmentMapping {
            file_start: page_floor(self.offset as int) as u64,
            file_end: page_ceil(self.offset + self.filesz) as u64,
            indices: table_indices(self.vaddr),
        }
    }

    /// Works out what has to be mapped for the segment. A segment that is
    /// not to be loaded needs nothing.
    pub fn mapping(&self) -> (r: Result<Option<SegmentMapping>, Fatal>)
        ensures
            match r {
                Ok(None) => !self.is_load(),
                Ok(Some(mapping)) => {
                    &&& self.is_load()
                    &&& self.segment_error() is None
                    &&& mapping == self.spec_mapping()
                    &&& mapping.file_start % 4096 == 0
                    &&& mapping.file_end % 4096 == 0
                    &&& mapping.file_start <= self.offset < mapping.file_start + 4096
                    &&& self.offset + self.filesz <= mapping.file_end < self.offset + self.filesz
                        + 4096
                },
                Err(e) => self.segment_error() == Some(e),
            },
            self.is_load() && self.filesz != self.memsz ==> r == Err::<Option<SegmentMapping>, Fatal>(
                Fatal::UnsupportedSegment,
            ),
    {
        if self.prog_type != LOAD {
            return Ok(None);
        }
        if self.filesz != self.memsz {
            return Err(Fatal::UnsupportedSegment);
        }
        if self.align != SEGMENT_ALIGN {
            return Err(Fatal::MisalignedSegment);
        }
        if self.filesz > u64::MAX - 4095 || self.offset > u64::MAX - 4095 - self.filesz {
            return Err(Fatal::SegmentOverflow);
        }
        let offset: u64 = self.offset;
        let end: u64 = self.offset + self.filesz + 4095;
        let file_start: u64 = offset & !4095;
        let file_end: u64 = end & !4095;
        assert(file_start == offset - offset % 4096 && file_end == end - end % 4096)
            by (bit_vector)
            requires
                file_start == offset & !4095u64,
                file_end == end & !4095u64,
        ;
        let indices = table_indices(self.vaddr);
        Ok(Some(SegmentMapping { file_start, file_end, indices }))
    }
}

impl SectionHeader {
    /// The section header whose record starts at byte `at`.
    pub open spec fn decode(bytes: Seq<u8>, at: int) -> SectionHeader {
        SectionHeader {
            name: le_u32(bytes, at),
            sect_type: le_u32(bytes, at + 4),
            flags: le_u64(bytes, at + 8),
            addr: le_u64(bytes, at + 16),
            offset: le_u64(bytes, at + 24),
            size: le_u64(bytes, at + 32),
            link: le_u32(bytes, at + 40),
            info: le_u32(bytes, at + 44),
            addralign: le_u64(bytes, at + 48),
            entsize: le_u64(bytes, at + 56),
        }
    }

    /// Reads the section header that starts at byte `at`. The record may lie
    /// at any offset.
    pub fn read(bytes: &[u8], at: usize) -> (r: SectionHeader)
        requires
            at + SECT_HEADER_BYTES <= bytes.len(),
        ensures
            r == SectionHeader::decode(bytes@, at as int),
    {
        SectionHeader {
            name: read_u32(bytes, at),
            sect_type: read_u32(bytes, at + 4),
            flags: read_u64(bytes, at + 8),
            addr: read_u64(bytes, at + 16),
            offset: read_u64(bytes, at + 24),
            size: read_u64(bytes, at + 32),
            link: read_u32(bytes, at + 40),
            info: read_u32(bytes, at + 44),
            addralign: read_u64(bytes, at + 48),
            entsize: read_u64(bytes, at + 56),
        }
    }
}

/// The entry point that the file header gives: the eight bytes at 0x18.
pub open spec fn entry_point_of(bytes: Seq<u8>) -> u64 {
    le_u64(bytes, 0x18)
}

/// The offset of the program header table: the eight bytes at 0x20.
pub open spec fn prog_offset_of(bytes: Seq<u8>) -> u64 {
    le_u64(bytes, 0x20)
}

/// The number of program headers: the two bytes at 0x38.
pub open spec fn prog_count_of(bytes: Seq<u8>) -> u16 {
    le_u16(bytes, 0x38)
}

/// The offset of the section header table: the eight bytes at 0x28.
pub open spec fn sect_offset_of(bytes: Seq<u8>) -> u64 {
    le_u64(bytes, 0x28)
}

/// The number of section headers: the two bytes at 0x3C.
pub open spec fn sect_count_of(bytes: Seq<u8>) -> u16 {
    le_u16(bytes, 0x3C)
}

/// A table of `count` records of `size` bytes at `offset` lies within a
/// file of `len` bytes. A table without records lies anywhere.
pub open spec fn table_in_bounds(len: nat, offset: u64, count: u16, size: nat) -> bool {
    count == 0 || offset + count * size <= len
}

/// The file starts with the ELF magic number.
pub open spec fn has_magic(bytes: Seq<u8>) -> bool {
    bytes[0] == 0x7F && bytes[1] == 0x45 && bytes[2] == 0x4C && bytes[3] == 0x46
}

/// Why `bytes` are no ELF file that can be loaded, if they are none. The
/// checks come in this order, and the first that fails decides.
pub open spec fn header_error(bytes: Seq<u8>) -> Option<Fatal> {
    if bytes.len() < HEADER_BYTES {
        Some(Fatal::HeaderTruncated)
    } else if !has_magic(bytes) {
        Some(Fatal::BadMagic)
    } else if bytes[0x4] != 2 {
        Some(Fatal::Not64Bit)
    } else if bytes[0x5] != 1 {
        Some(Fatal::NotLittleEndian)
    } else if bytes[0x7] != 0 {
        Some(Fatal::BadAbi)
    } else if !(bytes[0x10] == 2 && bytes[0x11] == 0) {
        Some(Fatal::NotExecutable)
    } else if !table_in_bounds(
        bytes.len(),
        prog_offset_of(bytes),
        prog_count_of(bytes),
        PROG_HEADER_BYTES as nat,
    ) {
        Some(Fatal::ProgramHeadersOutOfBounds)
    } else if !table_in_bounds(
        bytes.len(),
        sect_offset_of(bytes),
        sect_count_of(bytes),
        SECT_HEADER_BYTES as nat,
    ) {
        Some(Fatal::SectionHeadersOutOfBounds)
    } else {
        None
    }
}

/// The program headers of the file, in the order of the table.
pub open spec fn prog_headers_of(bytes: Seq<u8>) -> Seq<ProgramHeader> {
    Seq::new(
        prog_count_of(bytes) as nat,
        |i: int| ProgramHeader::decode(bytes, prog_offset_of(bytes) + PROG_HEADER_BYTES * i),
    )
}

/// The section headers of the file, in the order of the table.
pub open spec fn sect_headers_of(bytes: Seq<u8>) -> Seq<SectionHeader> {
    Seq::new(
        sect_count_of(bytes) as nat,
        |i: int| SectionHeader::decode(bytes, sect_offset_of(bytes) + SECT_HEADER_BYTES * i),
    )
}

/// An ELF executable, read where it lies: the headers are taken from the
/// bytes of the file whenever they are asked for.
pub struct ElfFile<'a> {
    bytes: &'a [u8],
    entry_point: u64,
    prog_offset: usize,
    prog_count: usize,
    sect_offset: usize,
    sect_count: usize,
}

impl<'a> ElfFile<'a> {
    #[verifier::type_invariant]
    spec fn inv(self) -> bool {
        &&& header_error(self.bytes@) is None
        &&& self.entry_point == entry_point_of(self.bytes@)
        &&& self.prog_count == prog_count_of(self.bytes@)
        &&& self.sect_count == sect_count_of(self.bytes@)
        &&& self.prog_count > 0 ==> self.prog_offset == prog_offset_of(self.bytes@)
        &&& self.sect_count > 0 ==> self.sect_offset == sect_offset_of(self.bytes@)
        &&& self.prog_offset + PROG_HEADER_BYTES * self.prog_count <= self.bytes.len()
        &&& self.sect_offset + SECT_HEADER_BYTES * self.sect_count <= self.bytes.len()
    }

    /// The bytes of the file.
    pub closed spec fn view(&self) -> Seq<u8> {
        self.bytes@
    }

    /// The file is what `from` accepts.
    pub open spec fn wf(&self) -> bool {
        header_error(self@) is None
    }

    /// The address at which the program starts.
    pub open spec fn spec_entry_point(&self) -> u64 {
        entry_point_of(self@)
    }

    /// The program headers, in the order of the table.
    pub open spec fn prog_headers(&self) -> Seq<ProgramHeader> {
        prog_headers_of(self@)
    }

    /// The section headers, in the order of the table.
    pub open spec fn sect_headers(&self) -> Seq<SectionHeader> {
        sect_headers_of(self@)
    }

    /// Checks the file header of `bytes` and finds the two header tables.
    /// The file must be a 64-bit little-endian executable for the System V
    /// ABI whose header tables lie within it.
    pub fn from(bytes: &'a [u8]) -> (r: Result<ElfFile<'a>, Fatal>)
        ensures
            match r {
                Ok(elf) => {
                    &&& header_error(bytes@) is None
                    &&& elf@ == bytes@
                    &&& elf.wf()
                },
                Err(e) => header_error(bytes@) == Some(e),
            },
            bytes.len() >= HEADER_BYTES && !has_magic(bytes@) ==> r matches Err(Fatal::BadMagic),
    {
        if bytes.len() < HEADER_BYTES {
            return Err(Fatal::HeaderTruncated);
        }
        // sanity checks
        if !(bytes[0] == 0x7F && bytes[1] == 0x45 && bytes[2] == 0x4C && bytes[3] == 0x46) {
            return Err(Fatal::BadMagic);
        }
        if bytes[0x4] != 2 {
            return Err(Fatal::Not64Bit);
        }
        if bytes[0x5] != 1 {
            return Err(Fatal::NotLittleEndian);
        }
        if bytes[0x7] != 0 {
            return Err(Fatal::BadAbi);
        }
        if !(bytes[0x10] == 0x02 && bytes[0x11] == 0x00) {
            return Err(Fatal::NotExecutable);
        }
        let entry_point: u64 = read_u64(bytes, 0x18);

        let prog_count: u16 = read_u16(bytes, 0x38);
        let prog_offset: usize = match table_start(
            bytes.len(),
            read_u64(bytes, 0x20),
            prog_count,
            PROG_HEADER_BYTES,
        ) {
            Some(start) => start,
            None => {
                return Err(Fatal::ProgramHeadersOutOfBounds);
            },
        };

        let sect_count: u16 = read_u16(bytes, 0x3C);
        let sect_offset: usize = match table_start(
            bytes.len(),
            read_u64(bytes, 0x28),
            sect_count,
            SECT_HEADER_BYTES,
        ) {
            Some(start) => start,
            None => {
                return Err(Fatal::SectionHeadersOutOfBounds);
            },
        };

        Ok(
            ElfFile {
                bytes,
                entry_point,
                prog_offset,
                prog_count: prog_count as usize,
                sect_offset,
                sect_count: sect_count as usize,
            },
        )
    }

    /// The bytes of the file.
    pub fn bytes(&self) -> (r: &'a [u8])
        ensures
            r@ == self@,
            self.wf(),
    {
        proof {
            use_type_invariant(self);
        }
        self.bytes
    }

    /// The address at which the program starts.
    #[verifier::when_used_as_spec(spec_entry_point)]
    pub fn entry_point(&self) -> (r: u64)
        ensures
            r == entry_point_of(self@),
    {
        proof {
            use_type_invariant(self);
        }
        self.entry_point
    }

    /// The number of program headers.
    pub fn prog_header_count(&self) -> (r: usize)
        ensures
            r == self.prog_headers().len(),
            r == prog_count_of(self@),
    {
        proof {
            use_type_invariant(self);
        }
        self.prog_count
    }

    /// The program header at `index` in the table, if the table has that
    /// many.
    pub fn prog_header(&self, index: usize) -> (r: Option<ProgramHeader>)
        ensures
            r == if index < self.prog_headers().len() {
                Some(self.prog_headers()[index as int])
            } else {
                None
            },
    {
        proof {
            use_type_invariant(self);
        }
        if index < self.prog_count {
            Some(ProgramHeader::read(self.bytes, self.prog_offset + index * PROG_HEADER_BYTES))
        } else {
            None
        }
    }

    /// The number of section headers.
    pub fn sect_header_count(&self) -> (r: usize)
        ensures
            r == self.sect_headers().len(),
            r == sect_count_of(self@),
    {
        proof {
            use_type_invariant(self);
        }
        self.sect_count
    }

    /// The section header at `index` in the table, if the table has that
    /// many.
    pub fn sect_header(&self, index: usize) -> (r: Option<SectionHeader>)
        ensures
            r == if index < self.sect_headers().len() {
                Some(self.sect_headers()[index as int])
            } else {
                None
            },
    {
        proof {
            use_type_invariant(self);
        }
        if index < self.sect_count {
            Some(SectionHeader::read(self.bytes, self.sect_offset + index * SECT_HEADER_BYTES))
        } else {
            None
        }
    }
}

/// Where a header table starts, if it lies within a file of `len` bytes. A
/// table without records is taken to start at 0.
fn table_start(len: usize, offset: u64, count: u16, size: usize) -> (r: Option<usize>)
    requires
        size <= 64,
    ensures
        r is Some <==> table_in_bounds(len as nat, offset, count, size as nat),
        r matches Some(start) ==> {
            &&& start + size * count <= len
            &&& count > 0 ==> start == offset
        },
{
    if count == 0 {
        return Some(0);
    }
    assert(size * count <= 64 * 0xFFFF) by (nonlinear_arith)
        requires
            size <= 64,
            count <= 0xFFFF,
    ;
    let span: u64 = (size as u64) * (count as u64);
    if offset > u64::MAX - span {
        return None;
    }
    if offset + span > len as u64 {
        return None;
    }
    Some(offset as usize)
}

} // verus!

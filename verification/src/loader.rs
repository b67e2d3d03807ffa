//! Loading the kernel: where the free frames start behind its image, and
//! whether each of its segments can be mapped.

use crate::elf::{header_error, page_ceil, prog_headers_of, ElfFile, ProgramHeader};
use crate::fatal::Fatal;
use crate::frame::Frame;
use crate::paging::lemma_page_sizes;
use vstd::prelude::*;

verus! {

/// The address at which the earlier boot stage puts the kernel image: the
/// 4 MiB mark.
pub const KERNEL_START: u64 = 0x40_0000;

/// Every segment of `headers` can be mapped or is passed over.
pub open spec fn segments_supported(headers: Seq<ProgramHeader>) -> bool {
    forall|i: int| 0 <= i < headers.len() ==> (#[trigger] headers[i]).segment_error() is None
}

/// `index` is the place of the first segment of `headers` that cannot be
/// mapped.
pub open spec fn is_first_unsupported(headers: Seq<ProgramHeader>, index: int) -> bool {
    &&& 0 <= index < headers.len()
    &&& headers[index].segment_error() is Some
    &&& forall|j: int| 0 <= j < index ==> (#[trigger] headers[j]).segment_error() is None
}

/// The first frame that starts at or behind the end of an image of
/// `kernel_size` bytes that lies at `kernel_start`, if there is one in the
/// 64-bit address space.
pub fn first_free_frame(kernel_start: u64, kernel_size: u64) -> (r: Option<Frame>)
    ensures
        match r {
            Some(frame) => {
                &&& kernel_start + kernel_size + 4095 <= u64::MAX
                &&& frame@ == page_ceil(kernel_start + kernel_size)
                &&& kernel_start + kernel_size <= frame@ < kernel_start + kernel_size + 4096
            },
            None => kernel_start + kernel_size + 4095 > u64::MAX,
        },
{
    if kernel_size > u64::MAX - 4095 || kernel_start > u64::MAX - 4095 - kernel_size {
        return None;
    }
    proof {
        lemma_page_sizes();
    }
    Some(Frame::containing_address(kernel_start + kernel_size + 4095))
}

/// Reads the kernel image and checks each of its segments in the order of
/// the program header table. The image is handed back if its header is in
/// order and every segment that is to be loaded can be mapped; what each
/// one needs is had from `ProgramHeader::mapping`.
pub fn load_kernel<'a>(kernel_blob: &'a [u8]) -> (r: Result<ElfFile<'a>, Fatal>)
    ensures
        match r {
            Ok(elf) => {
                &&& header_error(kernel_blob@) is None
                &&& elf@ == kernel_blob@
                &&& segments_supported(prog_headers_of(kernel_blob@))
            },
            Err(e) => {
                ||| header_error(kernel_blob@) == Some(e)
                ||| {
                    &&& header_error(kernel_blob@) is None
                    &&& exists|index: int|
                        is_first_unsupported(prog_headers_of(kernel_blob@), index)
                            && prog_headers_of(kernel_blob@)[index].segment_error() == Some(e)
                }
            },
        },
{
    let elf = match ElfFile::from(kernel_blob) {
        Ok(elf) => elf,
        Err(e) => {
            return Err(e);
        },
    };
    let ghost headers = prog_headers_of(kernel_blob@);
    let count: usize = elf.prog_header_count();
    let mut i: usize = 0;
    while i < count
        invariant
            i <= count,
            count == headers.len(),
            elf@ == kernel_blob@,
            header_error(kernel_blob@) is None,
            headers == prog_headers_of(kernel_blob@),
            forall|j: int| 0 <= j < i ==> (#[trigger] headers[j]).segment_error() is None,
        decreases count - i,
    {
        match elf.prog_header(i) {
            Some(segment) => {
                match segment.mapping() {
                    Ok(_) => {},
                    Err(e) => {
                        assert(is_first_unsupported(headers, i as int));
                        return Err(e);
                    },
                }
            },
            None => {},
        }
        i += 1;
    }
    Ok(elf)
}

} // verus!

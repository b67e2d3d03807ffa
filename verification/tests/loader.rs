use bean_boot::elf::ProgramHeader;
use bean_boot::fatal::Fatal;
use bean_boot::loader::{first_free_frame, load_kernel, KERNEL_START};

fn image(entry: u64, programs: &[ProgramHeader]) -> Vec<u8> {
    let mut bytes = vec![0_u8; 64];
    bytes[..4].copy_from_slice(&[0x7F, 0x45, 0x4C, 0x46]);
    bytes[0x4] = 2;
    bytes[0x5] = 1;
    bytes[0x6] = 1;
    bytes[0x10] = 2;
    bytes[0x18..0x20].copy_from_slice(&entry.to_le_bytes());
    bytes[0x20..0x28].copy_from_slice(&64_u64.to_le_bytes());
    bytes[0x38..0x3A].copy_from_slice(&(programs.len() as u16).to_le_bytes());
    for header in programs {
        bytes.extend_from_slice(&header.prog_type.to_le_bytes());
        bytes.extend_from_slice(&header.flags.to_le_bytes());
        bytes.extend_from_slice(&header.offset.to_le_bytes());
        bytes.extend_from_slice(&header.vaddr.to_le_bytes());
        bytes.extend_from_slice(&header.paddr.to_le_bytes());
        bytes.extend_from_slice(&header.filesz.to_le_bytes());
        bytes.extend_from_slice(&header.memsz.to_le_bytes());
        bytes.extend_from_slice(&header.align.to_le_bytes());
    }
    bytes
}

fn segment(prog_type: u32, filesz: u64, memsz: u64, align: u64) -> ProgramHeader {
    ProgramHeader {
        prog_type,
        flags: 5,
        offset: 0x1000,
        vaddr: 0xFFFF_8000_0000_0000,
        paddr: 0,
        filesz,
        memsz,
        align,
    }
}

fn error_of(bytes: &[u8]) -> Fatal {
    match load_kernel(bytes) {
        Ok(_) => panic!("the kernel was accepted"),
        Err(e) => e,
    }
}

#[test]
fn kernel_lies_at_the_4mib_mark() {
    assert_eq!(KERNEL_START, 4 * 1024 * 1024);
}

#[test]
fn free_frames_start_behind_the_kernel() {
    assert_eq!(first_free_frame(0x40_0000, 0x1234).unwrap().start_addr(), 0x40_2000);
    assert_eq!(first_free_frame(0x40_0000, 0x2000).unwrap().start_addr(), 0x40_2000);
    assert_eq!(first_free_frame(0x40_0000, 0x2001).unwrap().start_addr(), 0x40_3000);
    assert_eq!(first_free_frame(0x40_0000, 0).unwrap().start_addr(), 0x40_0000);
    assert_eq!(first_free_frame(0, 1).unwrap().start_addr(), 0x1000);
}

#[test]
fn free_frames_behind_the_address_space_are_none() {
    assert!(first_free_frame(u64::MAX, 1).is_none());
    assert!(first_free_frame(u64::MAX - 4095, 1).is_none());
    assert!(first_free_frame(1, u64::MAX).is_none());
    assert_eq!(
        first_free_frame(u64::MAX - 4095, 0).unwrap().start_addr(),
        0xFFFF_FFFF_FFFF_F000
    );
}

#[test]
fn kernel_with_supported_segments_is_handed_back() {
    let bytes = image(
        0xFFFF_8000_0000_0040,
        &[
            segment(1, 0x2000, 0x2000, 0x1000),
            segment(2, 0x10, 0x20, 8),
            segment(1, 0, 0, 0x1000),
            segment(0x6474_E551, 0, 0, 0x10),
        ],
    );
    let elf = load_kernel(&bytes).unwrap();
    assert_eq!(elf.entry_point(), 0xFFFF_8000_0000_0040);
    assert_eq!(elf.prog_header_count(), 4);
    assert_eq!(elf.prog_header(1), Some(segment(2, 0x10, 0x20, 8)));
}

#[test]
fn kernel_without_segments_is_handed_back() {
    let bytes = image(0x40_0000, &[]);
    assert_eq!(load_kernel(&bytes).unwrap().prog_header_count(), 0);
}

#[test]
fn kernel_with_bad_header_is_fatal() {
    let mut bytes = image(0, &[segment(1, 1, 2, 3)]);
    bytes[3] = 0;
    assert_eq!(error_of(&bytes), Fatal::BadMagic);
    assert_eq!(error_of(&[]), Fatal::HeaderTruncated);
}

#[test]
fn kernel_with_zero_fill_segment_is_fatal() {
    let bytes = image(0, &[segment(1, 0x1000, 0x1000, 0x1000), segment(1, 0x1000, 0x3000, 0x1000)]);
    assert_eq!(error_of(&bytes), Fatal::UnsupportedSegment);
    let bytes = image(0, &[segment(1, 0, 0x1000, 0x1000)]);
    assert_eq!(error_of(&bytes), Fatal::UnsupportedSegment);
}

#[test]
fn kernel_with_misaligned_segment_is_fatal() {
    let bytes = image(0, &[segment(6, 0, 0, 8), segment(1, 0x1000, 0x1000, 0x20_0000)]);
    assert_eq!(error_of(&bytes), Fatal::MisalignedSegment);
}

#[test]
fn first_unsupported_segment_decides() {
    let bytes = image(
        0,
        &[
            segment(1, 0x1000, 0x1000, 0x1000),
            segment(4, 1, 2, 3),
            segment(1, 0x1000, 0x1000, 0x10),
            segment(1, 0x1000, 0x2000, 0x1000),
        ],
    );
    assert_eq!(error_of(&bytes), Fatal::MisalignedSegment);
    let bytes = image(
        0,
        &[segment(1, 0x1000, 0x2000, 0x10), segment(1, 0x1000, 0x1000, 0x10)],
    );
    assert_eq!(error_of(&bytes), Fatal::UnsupportedSegment);
}

#[test]
fn kernel_with_overflowing_segment_is_fatal() {
    let bytes = image(0, &[segment(1, u64::MAX - 0x1000, u64::MAX - 0x1000, 0x1000)]);
    assert_eq!(error_of(&bytes), Fatal::SegmentOverflow);
}

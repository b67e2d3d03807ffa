use bean_boot::fatal::Fatal;

#[test]
fn messages_name_the_condition() {
    assert_eq!(Fatal::BadMagic.message(), "Wrong magic number in ELF header");
    assert_eq!(Fatal::Not64Bit.message(), "64-bit ELF file required");
    assert_eq!(Fatal::NotLittleEndian.message(), "ELF file needs to be little endian");
    assert_eq!(Fatal::BadAbi.message(), "Invalid target ABI");
    assert_eq!(Fatal::NotExecutable.message(), "ELF file needs to be an executable");
    assert_eq!(Fatal::NoRegions.message(), "no regions in memory map");
    assert_eq!(
        Fatal::InvalidStartFrame.message(),
        "Tried to init allocator in invalid memory region"
    );
}

#[test]
fn messages_differ() {
    let all = [
        Fatal::MemoryMapTruncated,
        Fatal::MalformedRegion,
        Fatal::NoRegions,
        Fatal::InvalidStartFrame,
        Fatal::OutOfFrames,
        Fatal::UnsupportedRange,
        Fatal::RangeTooLarge,
        Fatal::HeaderTruncated,
        Fatal::BadMagic,
        Fatal::Not64Bit,
        Fatal::NotLittleEndian,
        Fatal::BadAbi,
        Fatal::NotExecutable,
        Fatal::ProgramHeadersOutOfBounds,
        Fatal::SectionHeadersOutOfBounds,
        Fatal::UnsupportedSegment,
        Fatal::MisalignedSegment,
        Fatal::SegmentOverflow,
    ];
    for (i, a) in all.iter().enumerate() {
        assert!(!a.message().is_empty());
        for b in all.iter().skip(i + 1) {
            assert_ne!(a.message(), b.message());
        }
    }
}

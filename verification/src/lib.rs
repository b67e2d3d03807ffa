//! Memory management and kernel loading for the boot phase of a 64-bit x86
//! operating system.
//!
//! The firmware memory map is decoded from raw records, a bump allocator
//! hands out physical frames from it, the page-table builder identity-maps
//! the physical memory above the first gigabyte with 2 MiB pages, and the
//! ELF loader validates the kernel image and works out what each loadable
//! segment needs.
//!
//! Nothing here touches hardware or raw memory: callers hand in byte and
//! word slices and get plain values back.

pub mod addr;
pub mod allocator;
pub mod elf;
pub mod fatal;
pub mod frame;
pub mod loader;
pub mod memory;
pub mod packed;
pub mod page_table;
pub mod paging;

//! Descriptions of loaded code objects: where their text lies and where
//! their unwind metadata sections were mapped.
//!
//! The embedding enumerates the loaded objects (through the dynamic linker
//! on Linux, or the dyld API on macOS) and hands the library these plain
//! records.

use vstd::prelude::*;

verus! {

/// Real loaded addresses of one code object's sections in virtual memory.
#[derive(Debug, Copy, Clone, PartialEq, Eq, Structural)]
pub struct SectionInfo {
    pub base: u64,
    pub text: u64,
    pub text_len: u64,
    pub eh_frame_hdr: u64,
    pub eh_frame_hdr_len: u64,
    pub max_addr: u64,
}

impl SectionInfo {
    /// Whether `target` lies in this object's text range.
    pub open spec fn spec_contains(self, target: u64) -> bool {
        self.text <= target && target < self.text + self.text_len
    }

    /// Determine whether the target address is in the current section.
    pub fn contains(&self, target: u64) -> (r: bool)
        ensures
            r == self.spec_contains(target),
    {
        if self.text > target {
            false
        } else if self.text_len > u64::MAX - self.text {
            // The nominal end of text lies beyond the address space, so
            // every address at or above `text` is inside.
            true
        } else {
            target < self.text + self.text_len
        }
    }
}

/// The unwind-related sections the dyld API reports for one address: the
/// image's load address, its DWARF `__eh_frame` section and its compact
/// `__unwind_info` section.
#[derive(Debug, Copy, Clone, PartialEq, Eq, Structural)]
pub struct DyldUnwindSections {
    pub mach_header: u64,
    pub dwarf_section: u64,
    pub dwarf_section_length: u64,
    pub compact_unwind_section: u64,
    pub compact_unwind_section_length: u64,
}

} // verus!

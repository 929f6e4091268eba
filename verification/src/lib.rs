//! A stack-unwinding engine for sampling profilers.
//!
//! Given a snapshot of the CPU registers and an image of the readable parts
//! of the address space, the library walks the call chain one frame at a
//! time: it locates the unwind metadata of the module containing the current
//! program counter, interprets the DWARF call-frame information (or an Apple
//! compact-unwind encoding) for that frame, and replaces the register bank
//! with the caller's register state.
//!
//! The process-facing pieces — the assembly register snapshot, `ucontext`
//! decoding, `dl_iterate_phdr` module discovery and the capture of readable
//! memory — live outside this crate; everything here is pure computation
//! over explicit values.

use vstd::prelude::*;

pub mod compact;
pub mod cursor;
pub mod dwarf;
pub mod dyld;
pub mod mem;
pub mod registers;

pub use cursor::UnwindCursor;
pub use registers::Registers;

verus! {

/// The error type of the public unwinding entry points.
#[derive(Debug, Copy, Clone, PartialEq, Eq, Structural)]
pub enum Error {
    /// Unwind metadata or memory was inconsistent at the current frame.
    Dwarf(crate::dwarf::DwarfError),
    /// A register snapshot could not be produced from a `ucontext`.
    InvalidUcontext,
}

} // verus!

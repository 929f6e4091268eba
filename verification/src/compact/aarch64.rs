//! The aarch64 compact-unwind step: frame-based and frameless encodings,
//! per LLVM libunwind's `UNWIND_ARM64_*` definitions.

use vstd::prelude::*;

use crate::compact::{Encoding, UnwindFuncInfo};
use crate::dwarf::DwarfError;
use crate::dyld::DyldUnwindSections;
use crate::mem::Memory;
use crate::registers::{
    Arch, Registers, UNW_ARM64_FP, UNW_ARM64_LR, UNW_ARM64_PC, UNW_ARM64_SP,
};

verus! {

pub const UNWIND_ARM64_MODE_MASK: u32 = 0x0F000000;
pub const UNWIND_ARM64_MODE_FRAMELESS: u32 = 0x02000000;
pub const UNWIND_ARM64_MODE_DWARF: u32 = 0x03000000;
pub const UNWIND_ARM64_MODE_FRAME: u32 = 0x04000000;
pub const UNWIND_ARM64_FRAME_X19_X20_PAIR: u32 = 0x00000001;
pub const UNWIND_ARM64_FRAME_X21_X22_PAIR: u32 = 0x00000002;
pub const UNWIND_ARM64_FRAME_X23_X24_PAIR: u32 = 0x00000004;
pub const UNWIND_ARM64_FRAME_X25_X26_PAIR: u32 = 0x00000008;
pub const UNWIND_ARM64_FRAME_X27_X28_PAIR: u32 = 0x00000010;
pub const UNWIND_ARM64_FRAME_D8_D9_PAIR: u32 = 0x00000100;
pub const UNWIND_ARM64_FRAME_D10_D11_PAIR: u32 = 0x00000200;
pub const UNWIND_ARM64_FRAME_D12_D13_PAIR: u32 = 0x00000400;
pub const UNWIND_ARM64_FRAME_D14_D15_PAIR: u32 = 0x00000800;
pub const UNWIND_ARM64_FRAMELESS_STACK_SIZE_MASK: u32 = 0x00FFF000;

/// The encoding bit announcing that saved-register pair `i` is present.
pub open spec fn spec_pair_mask(i: int) -> u32 {
    if i == 0 {
        UNWIND_ARM64_FRAME_X19_X20_PAIR
    } else if i == 1 {
        UNWIND_ARM64_FRAME_X21_X22_PAIR
    } else if i == 2 {
        UNWIND_ARM64_FRAME_X23_X24_PAIR
    } else if i == 3 {
        UNWIND_ARM64_FRAME_X25_X26_PAIR
    } else if i == 4 {
        UNWIND_ARM64_FRAME_X27_X28_PAIR
    } else if i == 5 {
        UNWIND_ARM64_FRAME_D8_D9_PAIR
    } else if i == 6 {
        UNWIND_ARM64_FRAME_D10_D11_PAIR
    } else if i == 7 {
        UNWIND_ARM64_FRAME_D12_D13_PAIR
    } else {
        UNWIND_ARM64_FRAME_D14_D15_PAIR
    }
}

/// The DWARF number of the first register of pair `i` (the partner is the
/// next number up). Pairs 5 to 8 are the d registers.
pub open spec fn spec_pair_reg(i: int) -> int {
    if i == 0 {
        19
    } else if i == 1 {
        21
    } else if i == 2 {
        23
    } else if i == 3 {
        25
    } else if i == 4 {
        27
    } else if i == 5 {
        72
    } else if i == 6 {
        74
    } else if i == 7 {
        76
    } else {
        78
    }
}

/// Restore the saved-register pairs `i` and above that `encoding`
/// announces, walking `loc` down through the frame's save area.
pub open spec fn spec_restore_pairs(
    m: Memory,
    encoding: Encoding,
    file: Seq<u64>,
    loc: u64,
    i: int,
) -> Result<(Seq<u64>, u64), DwarfError>
    decreases 9 - i,
{
    if i >= 9 {
        Ok((file, loc))
    } else if encoding & spec_pair_mask(i) != 0 {
        match m.u64_at(loc) {
            Option::None => Err(DwarfError::UnreadableAddress(loc)),
            Option::Some(v1) => {
                match m.u64_at(loc.wrapping_sub(8)) {
                    Option::None => Err(DwarfError::UnreadableAddress(loc.wrapping_sub(8))),
                    Option::Some(v2) => spec_restore_pairs(
                        m,
                        encoding,
                        file.update(spec_pair_reg(i), v1).update(spec_pair_reg(i) + 1, v2),
                        loc.wrapping_sub(16),
                        i + 1,
                    ),
                }
            },
        }
    } else {
        spec_restore_pairs(m, encoding, file, loc, i + 1)
    }
}

/// The register file after a frame-based step: the announced pairs
/// restored from below the frame pointer, then the frame pointer, stack
/// pointer and program counter recovered through the saved fp/lr pair.
pub open spec fn spec_step_frame(m: Memory, regs: Registers, encoding: Encoding) -> Result<
    Seq<u64>,
    DwarfError,
> {
    let fp = regs.regs@[UNW_ARM64_FP as int];
    match spec_restore_pairs(m, encoding, regs.regs@, fp.wrapping_sub(8), 0) {
        Err(e) => Err(e),
        Ok((file, _)) => {
            match m.u64_at(fp) {
                Option::None => Err(DwarfError::UnreadableAddress(fp)),
                Option::Some(new_fp) => {
                    match m.u64_at(fp.wrapping_add(8)) {
                        Option::None => Err(DwarfError::UnreadableAddress(fp.wrapping_add(8))),
                        Option::Some(ra) => Ok(
                            file.update(UNW_ARM64_FP as int, new_fp).update(
                                UNW_ARM64_SP as int,
                                fp.wrapping_add(16),
                            ).update(UNW_ARM64_PC as int, ra),
                        ),
                    }
                },
            }
        },
    }
}

/// The register file after a frameless step: the announced pairs restored
/// from the top of the fixed-size frame, the stack pointer advanced past
/// it, and the return address taken from the link register.
pub open spec fn spec_step_frameless(m: Memory, regs: Registers, encoding: Encoding) -> Result<
    Seq<u64>,
    DwarfError,
> {
    let stack_size = (16 * ((encoding >> 12u32) & 0xFFF)) as u64;
    let sp = regs.regs@[UNW_ARM64_SP as int];
    match spec_restore_pairs(m, encoding, regs.regs@, sp.wrapping_add(stack_size), 0) {
        Err(e) => Err(e),
        Ok((file, loc)) => Ok(
            file.update(UNW_ARM64_SP as int, loc).update(
                UNW_ARM64_PC as int,
                regs.regs@[UNW_ARM64_LR as int],
            ),
        ),
    }
}

/// What one aarch64 compact step yields: `true` with the parent frame's
/// register file, or `false` with the bank unchanged when the encoding
/// delegates to DWARF (or is not a frame encoding at all).
pub open spec fn spec_step(m: Memory, regs: Registers, encoding: Encoding) -> Result<
    (bool, Seq<u64>),
    DwarfError,
> {
    let mode = encoding & UNWIND_ARM64_MODE_MASK;
    if mode == UNWIND_ARM64_MODE_FRAME {
        match spec_step_frame(m, regs, encoding) {
            Err(e) => Err(e),
            Ok(file) => Ok((true, file)),
        }
    } else if mode == UNWIND_ARM64_MODE_FRAMELESS {
        match spec_step_frameless(m, regs, encoding) {
            Err(e) => Err(e),
            Ok(file) => Ok((true, file)),
        }
    } else {
        Ok((false, regs.regs@))
    }
}

/// Restore the saved-register pairs `encoding` announces, walking `loc`
/// down through the save area. Yields the address below the last pair.
fn restore_registers(
    m: &Memory,
    registers: &mut Registers,
    encoding: Encoding,
    start_loc: u64,
) -> (r: Result<u64, DwarfError>)
    requires
        old(registers).arch == Arch::Aarch64,
    ensures
        final(registers).arch == old(registers).arch,
        match r {
            Ok(loc) => spec_restore_pairs(*m, encoding, old(registers).regs@, start_loc, 0)
                == Ok::<(Seq<u64>, u64), DwarfError>((final(registers).regs@, loc)),
            Err(e) => spec_restore_pairs(*m, encoding, old(registers).regs@, start_loc, 0)
                == Err::<(Seq<u64>, u64), DwarfError>(e),
        },
{
    let mut loc = start_loc;
    let mut i: usize = 0;
    while i < 9
        invariant
            i <= 9,
            registers.arch == old(registers).arch,
            registers.arch == Arch::Aarch64,
            spec_restore_pairs(*m, encoding, registers.regs@, loc, i as int)
                == spec_restore_pairs(*m, encoding, old(registers).regs@, start_loc, 0),
        decreases 9 - i,
    {
        let mask = pair_mask(i);
        let r1 = pair_reg(i);
        if encoding & mask != 0 {
            let v1 = match m.read_u64(loc) {
                Ok(v) => v,
                Err(e) => return Err(e),
            };
            let v2 = match m.read_u64(loc.wrapping_sub(8)) {
                Ok(v) => v,
                Err(e) => return Err(e),
            };
            registers.set(r1, v1);
            registers.set(r1 + 1, v2);
            loc = loc.wrapping_sub(16);
        }
        i = i + 1;
    }
    Ok(loc)
}

/// The encoding bit and first register of saved-register pair `i`.
fn pair_mask(i: usize) -> (r: u32)
    requires
        i < 9,
    ensures
        r == spec_pair_mask(i as int),
{
    if i == 0 {
        UNWIND_ARM64_FRAME_X19_X20_PAIR
    } else if i == 1 {
        UNWIND_ARM64_FRAME_X21_X22_PAIR
    } else if i == 2 {
        UNWIND_ARM64_FRAME_X23_X24_PAIR
    } else if i == 3 {
        UNWIND_ARM64_FRAME_X25_X26_PAIR
    } else if i == 4 {
        UNWIND_ARM64_FRAME_X27_X28_PAIR
    } else if i == 5 {
        UNWIND_ARM64_FRAME_D8_D9_PAIR
    } else if i == 6 {
        UNWIND_ARM64_FRAME_D10_D11_PAIR
    } else if i == 7 {
        UNWIND_ARM64_FRAME_D12_D13_PAIR
    } else {
        UNWIND_ARM64_FRAME_D14_D15_PAIR
    }
}

/// The DWARF number of the first register of pair `i`.
fn pair_reg(i: usize) -> (r: usize)
    requires
        i < 9,
    ensures
        r == spec_pair_reg(i as int),
        (19 <= r && r <= 27) || (72 <= r && r <= 78),
{
    if i == 0 {
        19
    } else if i == 1 {
        21
    } else if i == 2 {
        23
    } else if i == 3 {
        25
    } else if i == 4 {
        27
    } else if i == 5 {
        72
    } else if i == 6 {
        74
    } else if i == 7 {
        76
    } else {
        78
    }
}

/// Restore `registers` per the rules in `info.encoding`. `Ok(true)` means
/// the bank now describes the parent frame; `Ok(false)` means the encoding
/// delegates to the DWARF metadata (`sections.dwarf_section`) instead, and
/// the bank is unchanged.
pub fn step(
    m: &Memory,
    registers: &mut Registers,
    info: UnwindFuncInfo,
    sections: DyldUnwindSections,
) -> (r: Result<bool, DwarfError>)
    requires
        old(registers).arch == Arch::Aarch64,
    ensures
        final(registers).arch == old(registers).arch,
        match r {
            Ok(b) => spec_step(*m, *old(registers), info.encoding) matches Ok(o) && o.0 == b
                && (b ==> o.1 == final(registers).regs@) && (!b ==> *final(registers) == *old(
                registers,
            )),
            Err(e) => spec_step(*m, *old(registers), info.encoding) == Err::<
                (bool, Seq<u64>),
                DwarfError,
            >(e),
        },
{
    let _ = sections;
    let mode = info.encoding & UNWIND_ARM64_MODE_MASK;
    if mode == UNWIND_ARM64_MODE_FRAME {
        let fp = registers.get(UNW_ARM64_FP);
        match restore_registers(m, registers, info.encoding, fp.wrapping_sub(8)) {
            Ok(_) => (),
            Err(e) => return Err(e),
        }
        // fp points at the saved caller fp; the return address sits above it.
        let new_fp = match m.read_u64(fp) {
            Ok(v) => v,
            Err(e) => return Err(e),
        };
        let ra = match m.read_u64(fp.wrapping_add(8)) {
            Ok(v) => v,
            Err(e) => return Err(e),
        };
        registers.set(UNW_ARM64_FP, new_fp);
        // The caller's sp is fp less the saved fp and lr pair.
        registers.set_sp(fp.wrapping_add(16));
        registers.set_pc(ra);
        Ok(true)
    } else if mode == UNWIND_ARM64_MODE_FRAMELESS {
        let enc = info.encoding;
        proof {
            assert(((enc >> 12u32) & 0xFFF) <= 0xFFF) by (bit_vector);
        }
        let stack_size = (16 * ((enc >> 12u32) & 0xFFF)) as u64;
        let sp = registers.sp();
        let lr = registers.get(UNW_ARM64_LR);
        let loc = match restore_registers(m, registers, info.encoding, sp.wrapping_add(stack_size))
            {
            Ok(v) => v,
            Err(e) => return Err(e),
        };
        // Take the frame off the stack and return through the link register.
        registers.set_sp(loc);
        registers.set_pc(lr);
        Ok(true)
    } else {
        // DWARF-delegating (or unknown) encodings are handled by the DWARF
        // engine instead.
        Ok(false)
    }
}

} // verus!

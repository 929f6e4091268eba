//! The x86_64 compact-unwind step: RBP-framed, frameless (immediate and
//! indirect stack size) and DWARF-delegating encodings, per LLVM
//! libunwind's `UNWIND_X86_64_*` definitions.

use vstd::prelude::*;

use crate::compact::{Encoding, UnwindFuncInfo};
use crate::dwarf::cfi::{spec_fde, FrameDescriptionEntry};
use crate::dwarf::{spec_step_with_fde, DwarfError};
use crate::dyld::DyldUnwindSections;
use crate::mem::Memory;
use crate::registers::{
    Arch, Registers, UNW_X86_64_R12, UNW_X86_64_R13, UNW_X86_64_R14, UNW_X86_64_R15,
    UNW_X86_64_RBP, UNW_X86_64_RBX, UNW_X86_64_RIP, UNW_X86_64_RSP,
};

verus! {

pub const UNWIND_X86_64_MODE_MASK: u32 = 0x0F000000;
pub const UNWIND_X86_64_MODE_RBP_FRAME: u32 = 0x01000000;
pub const UNWIND_X86_64_MODE_STACK_IMMD: u32 = 0x02000000;
pub const UNWIND_X86_64_MODE_STACK_IND: u32 = 0x03000000;
pub const UNWIND_X86_64_MODE_DWARF: u32 = 0x04000000;
pub const UNWIND_X86_64_DWARF_SECTION_OFFSET: u32 = 0x00FFFFFF;
pub const UNWIND_X86_64_REG_NONE: u32 = 0;
pub const UNWIND_X86_64_REG_RBX: u32 = 1;
pub const UNWIND_X86_64_REG_R12: u32 = 2;
pub const UNWIND_X86_64_REG_R13: u32 = 3;
pub const UNWIND_X86_64_REG_R14: u32 = 4;
pub const UNWIND_X86_64_REG_R15: u32 = 5;
pub const UNWIND_X86_64_REG_RBP: u32 = 6;

/// The DWARF register number of compact register number `sel` (1 to 6).
pub open spec fn spec_compact_reg(sel: u32) -> int {
    if sel == UNWIND_X86_64_REG_RBX {
        UNW_X86_64_RBX as int
    } else if sel == UNWIND_X86_64_REG_R12 {
        UNW_X86_64_R12 as int
    } else if sel == UNWIND_X86_64_REG_R13 {
        UNW_X86_64_R13 as int
    } else if sel == UNWIND_X86_64_REG_R14 {
        UNW_X86_64_R14 as int
    } else if sel == UNWIND_X86_64_REG_R15 {
        UNW_X86_64_R15 as int
    } else {
        UNW_X86_64_RBP as int
    }
}

/// Restore the five three-bit register slots of an RBP-framed encoding,
/// slot `i` onward, from the save area walking up from `addr`.
pub open spec fn spec_restore_frame_regs(
    m: Memory,
    file: Seq<u64>,
    locations: u32,
    addr: u64,
    i: int,
) -> Result<Seq<u64>, DwarfError>
    decreases 5 - i,
{
    if i >= 5 {
        Ok(file)
    } else {
        let sel = locations & 0x7;
        if sel == UNWIND_X86_64_REG_NONE {
            spec_restore_frame_regs(m, file, locations >> 3u32, addr.wrapping_add(8), i + 1)
        } else if sel <= UNWIND_X86_64_REG_R15 {
            match m.u64_at(addr) {
                Option::None => Err(DwarfError::UnreadableAddress(addr)),
                Option::Some(v) => spec_restore_frame_regs(
                    m,
                    file.update(spec_compact_reg(sel), v),
                    locations >> 3u32,
                    addr.wrapping_add(8),
                    i + 1,
                ),
            }
        } else {
            // RBP never appears in a frame encoding's slots.
            Err(DwarfError::InvalidRegisterLocation)
        }
    }
}

/// The register file after an RBP-framed step.
pub open spec fn spec_step_frame(m: Memory, regs: Registers, encoding: Encoding) -> Result<
    Seq<u64>,
    DwarfError,
> {
    let saved_registers_offset = (encoding >> 16u32) & 0xFF;
    let locations = encoding & 0x7FFF;
    let rbp = regs.regs@[UNW_X86_64_RBP as int];
    let addr = rbp.wrapping_sub((8 * saved_registers_offset) as u64);
    match spec_restore_frame_regs(m, regs.regs@, locations, addr, 0) {
        Err(e) => Err(e),
        Ok(file) => {
            match m.u64_at(rbp) {
                Option::None => Err(DwarfError::UnreadableAddress(rbp)),
                Option::Some(new_rbp) => {
                    match m.u64_at(rbp.wrapping_add(8)) {
                        Option::None => Err(DwarfError::UnreadableAddress(rbp.wrapping_add(8))),
                        Option::Some(ra) => Ok(
                            file.update(UNW_X86_64_RBP as int, new_rbp).update(
                                UNW_X86_64_RSP as int,
                                rbp.wrapping_add(16),
                            ).update(UNW_X86_64_RIP as int, ra),
                        ),
                    }
                },
            }
        },
    }
}

/// The saved-register list packed in a frameless encoding's permutation
/// field, decompressed from its Lehmer code. Values index the still-unused
/// compact register numbers.
pub open spec fn spec_lehmer(permutation: u32, reg_count: u32) -> Seq<u32> {
    let p = permutation;
    if reg_count == 6 || reg_count == 5 {
        let r0 = (p / 120) as u32;
        let p1 = (p % 120) as u32;
        let r1 = (p1 / 24) as u32;
        let p2 = (p1 % 24) as u32;
        let r2 = (p2 / 6) as u32;
        let p3 = (p2 % 6) as u32;
        let r3 = (p3 / 2) as u32;
        let p4 = (p3 % 2) as u32;
        seq![r0, r1, r2, r3, p4, 0u32]
    } else if reg_count == 4 {
        let r0 = (p / 60) as u32;
        let p1 = (p % 60) as u32;
        let r1 = (p1 / 12) as u32;
        let p2 = (p1 % 12) as u32;
        let r2 = (p2 / 3) as u32;
        let p3 = (p2 % 3) as u32;
        seq![r0, r1, r2, p3, 0u32, 0u32]
    } else if reg_count == 3 {
        let r0 = (p / 20) as u32;
        let p1 = (p % 20) as u32;
        let r1 = (p1 / 4) as u32;
        let p2 = (p1 % 4) as u32;
        seq![r0, r1, p2, 0u32, 0u32, 0u32]
    } else if reg_count == 2 {
        let r0 = (p / 5) as u32;
        let p1 = (p % 5) as u32;
        seq![r0, p1, 0u32, 0u32, 0u32, 0u32]
    } else if reg_count == 1 {
        seq![p, 0u32, 0u32, 0u32, 0u32, 0u32]
    } else {
        seq![0u32, 0u32, 0u32, 0u32, 0u32, 0u32]
    }
}

/// The `want`-th compact register number (1 to 6) not yet marked in
/// `used`, scanning from `u`.
pub open spec fn spec_pick(used: Seq<bool>, want: u32, u: int) -> Option<int>
    decreases 7 - u,
{
    if u >= 7 {
        None
    } else if !used[u] {
        if want == 0 {
            Some(u)
        } else {
            spec_pick(used, (want - 1) as u32, u + 1)
        }
    } else {
        spec_pick(used, want, u + 1)
    }
}

/// Renumber the Lehmer-decoded list back to absolute compact register
/// numbers: entry `n` picks the `regs6[n]`-th still-unused number.
pub open spec fn spec_renumber(
    regs6: Seq<u32>,
    count: int,
    n: int,
    used: Seq<bool>,
    out: Seq<u32>,
) -> Option<Seq<u32>>
    decreases count - n,
{
    if n >= count {
        Some(out)
    } else {
        match spec_pick(used, regs6[n], 1) {
            Option::None => None,
            Option::Some(u) => spec_renumber(
                regs6,
                count,
                n + 1,
                used.update(u, true),
                out.update(n, u as u32),
            ),
        }
    }
}

/// Restore the `count` saved registers named by `saved` (absolute compact
/// numbers), entry `n` onward, from the save area walking up from `addr`.
pub open spec fn spec_restore_frameless_regs(
    m: Memory,
    file: Seq<u64>,
    saved: Seq<u32>,
    count: int,
    addr: u64,
    n: int,
) -> Result<Seq<u64>, DwarfError>
    decreases count - n,
{
    if n >= count {
        Ok(file)
    } else {
        let sel = saved[n];
        if 1 <= sel <= 6 {
            match m.u64_at(addr) {
                Option::None => Err(DwarfError::UnreadableAddress(addr)),
                Option::Some(v) => spec_restore_frameless_regs(
                    m,
                    file.update(spec_compact_reg(sel), v),
                    saved,
                    count,
                    addr.wrapping_add(8),
                    n + 1,
                ),
            }
        } else {
            Err(DwarfError::InvalidRegisterLocation)
        }
    }
}

/// The stack size of a frameless frame: immediate (in 8-byte units), or
/// read from the `sub` instruction in the function's prolog for the
/// indirect form.
pub open spec fn spec_frameless_stack_size(
    m: Memory,
    func_start: u64,
    encoding: Encoding,
    imm: bool,
) -> Result<u32, DwarfError> {
    let stack_size_encoded = (encoding >> 16u32) & 0xFF;
    let stack_adjust = (encoding >> 13u32) & 0x7;
    if imm {
        Ok((stack_size_encoded * 8) as u32)
    } else {
        match m.u32_at(func_start.wrapping_add(stack_size_encoded as u64)) {
            Option::None => Err(
                DwarfError::UnreadableAddress(func_start.wrapping_add(stack_size_encoded as u64)),
            ),
            Option::Some(subl) => Ok(subl.wrapping_add((8 * stack_adjust) as u32)),
        }
    }
}

/// The register file after a frameless step: the saved registers restored
/// from just below the return address, the stack pointer advanced past the
/// frame, and the return address popped into the program counter.
pub open spec fn spec_step_frameless(
    m: Memory,
    regs: Registers,
    info: UnwindFuncInfo,
    imm: bool,
) -> Result<Seq<u64>, DwarfError> {
    let encoding = info.encoding;
    let reg_count = (encoding >> 10u32) & 0x7;
    let permutation = encoding & 0x3FF;
    if reg_count > 6 {
        Err(DwarfError::InvalidRegisterLocation)
    } else {
    match spec_frameless_stack_size(m, info.start, encoding, imm) {
        Err(e) => Err(e),
        Ok(stack_size) => {
            let regs6 = spec_lehmer(permutation, reg_count);
            match spec_renumber(
                regs6,
                reg_count as int,
                0,
                Seq::new(7, |i: int| false),
                seq![0u32, 0u32, 0u32, 0u32, 0u32, 0u32],
            ) {
                Option::None => Err(DwarfError::InvalidRegisterLocation),
                Option::Some(saved) => {
                    let rsp = regs.regs@[UNW_X86_64_RSP as int];
                    let addr = rsp.wrapping_add(stack_size as u64).wrapping_sub(8).wrapping_sub(
                        (8 * reg_count) as u64,
                    );
                    match spec_restore_frameless_regs(
                        m,
                        regs.regs@,
                        saved,
                        reg_count as int,
                        addr,
                        0,
                    ) {
                        Err(e) => Err(e),
                        Ok(file) => {
                            let ra_addr = addr.wrapping_add((8 * reg_count) as u64);
                            match m.u64_at(ra_addr) {
                                Option::None => Err(DwarfError::UnreadableAddress(ra_addr)),
                                Option::Some(ra) => Ok(
                                    file.update(
                                        UNW_X86_64_RSP as int,
                                        ra_addr.wrapping_add(8),
                                    ).update(UNW_X86_64_RIP as int, ra),
                                ),
                            }
                        },
                    }
                },
            }
        },
    }
    }
}

/// What one x86_64 compact step yields: `true` with the parent frame's
/// register file after a frame or frameless step, the DWARF engine's
/// outcome for a DWARF-delegating encoding, or `false` with the bank
/// unchanged for an encoding that names no strategy.
pub open spec fn spec_step(
    m: Memory,
    regs: Registers,
    info: UnwindFuncInfo,
    sections: DyldUnwindSections,
) -> Result<(bool, Seq<u64>), DwarfError> {
    let mode = info.encoding & UNWIND_X86_64_MODE_MASK;
    if mode == UNWIND_X86_64_MODE_RBP_FRAME {
        match spec_step_frame(m, regs, info.encoding) {
            Err(e) => Err(e),
            Ok(file) => Ok((true, file)),
        }
    } else if mode == UNWIND_X86_64_MODE_STACK_IMMD || mode == UNWIND_X86_64_MODE_STACK_IND {
        match spec_step_frameless(m, regs, info, mode == UNWIND_X86_64_MODE_STACK_IMMD) {
            Err(e) => Err(e),
            Ok(file) => Ok((true, file)),
        }
    } else if mode == UNWIND_X86_64_MODE_DWARF {
        if sections.dwarf_section == 0 || sections.dwarf_section_length == 0 {
            Ok((false, regs.regs@))
        } else {
            let fde_addr = sections.dwarf_section.wrapping_add(
                (info.encoding & UNWIND_X86_64_DWARF_SECTION_OFFSET) as u64,
            );
            match spec_fde(m, fde_addr) {
                Err(e) => Err(e),
                Ok((fde, cie)) => {
                    match spec_step_with_fde(
                        m,
                        regs.regs@[UNW_X86_64_RIP as int],
                        fde,
                        cie,
                        regs,
                    ) {
                        Err(e) => Err(e),
                        Ok(file) => Ok((true, file)),
                    }
                },
            }
        }
    } else {
        Ok((false, regs.regs@))
    }
}

/// The DWARF register number of compact register number `sel`.
fn compact_reg(sel: u32) -> (r: usize)
    requires
        1 <= sel <= 6,
    ensures
        r == spec_compact_reg(sel),
        r <= 16,
{
    if sel == UNWIND_X86_64_REG_RBX {
        UNW_X86_64_RBX
    } else if sel == UNWIND_X86_64_REG_R12 {
        UNW_X86_64_R12
    } else if sel == UNWIND_X86_64_REG_R13 {
        UNW_X86_64_R13
    } else if sel == UNWIND_X86_64_REG_R14 {
        UNW_X86_64_R14
    } else if sel == UNWIND_X86_64_REG_R15 {
        UNW_X86_64_R15
    } else {
        UNW_X86_64_RBP
    }
}

/// Restore the registers of an RBP-framed encoding and unwind through the
/// saved frame pointer.
fn step_frame(m: &Memory, registers: &mut Registers, encoding: Encoding) -> (r: Result<
    (),
    DwarfError,
>)
    requires
        old(registers).arch == Arch::X64,
    ensures
        final(registers).arch == old(registers).arch,
        match r {
            Ok(_) => spec_step_frame(*m, *old(registers), encoding) == Ok::<Seq<u64>, DwarfError>(
                final(registers).regs@,
            ),
            Err(e) => spec_step_frame(*m, *old(registers), encoding) == Err::<Seq<u64>, DwarfError>(
                e,
            ),
        },
{
    let saved_registers_offset = (encoding >> 16u32) & 0xFF;
    let mut locations = encoding & 0x7FFF;
    proof {
        assert(((encoding >> 16u32) & 0xFF) <= 0xFF) by (bit_vector);
    }
    let rbp = registers.get(UNW_X86_64_RBP);
    let mut addr = rbp.wrapping_sub((8 * saved_registers_offset) as u64);
    let mut i: usize = 0;
    while i < 5
        invariant
            i <= 5,
            registers.arch == old(registers).arch,
            registers.arch == Arch::X64,
            spec_restore_frame_regs(*m, registers.regs@, locations, addr, i as int)
                == spec_restore_frame_regs(
                *m,
                old(registers).regs@,
                encoding & 0x7FFF,
                old(registers).regs@[UNW_X86_64_RBP as int].wrapping_sub(
                    (8 * ((encoding >> 16u32) & 0xFF)) as u64,
                ),
                0,
            ),
        decreases 5 - i,
    {
        let sel = locations & 0x7;
        if sel == UNWIND_X86_64_REG_NONE {
            // No register saved in this slot.
        } else if sel <= UNWIND_X86_64_REG_R15 {
            let v = match m.read_u64(addr) {
                Ok(v) => v,
                Err(e) => return Err(e),
            };
            registers.set(compact_reg(sel), v);
        } else {
            return Err(DwarfError::InvalidRegisterLocation);
        }
        addr = addr.wrapping_add(8);
        locations = locations >> 3u32;
        i = i + 1;
    }

    // Frame unwind: rbp holds the saved caller rbp, the return address
    // sits above it, and the caller's rsp is just past both.
    let new_rbp = match m.read_u64(rbp) {
        Ok(v) => v,
        Err(e) => return Err(e),
    };
    let ra = match m.read_u64(rbp.wrapping_add(8)) {
        Ok(v) => v,
        Err(e) => return Err(e),
    };
    registers.set(UNW_X86_64_RBP, new_rbp);
    registers.set_sp(rbp.wrapping_add(16));
    registers.set_pc(ra);
    Ok(())
}

/// Restore the registers of a frameless encoding and pop the return
/// address. `imm` selects the immediate stack-size form.
#[verifier::rlimit(100)]
fn step_frameless(m: &Memory, registers: &mut Registers, info: UnwindFuncInfo, imm: bool) -> (r:
    Result<(), DwarfError>)
    requires
        old(registers).arch == Arch::X64,
    ensures
        final(registers).arch == old(registers).arch,
        match r {
            Ok(_) => spec_step_frameless(*m, *old(registers), info, imm) == Ok::<
                Seq<u64>,
                DwarfError,
            >(final(registers).regs@),
            Err(e) => spec_step_frameless(*m, *old(registers), info, imm) == Err::<
                Seq<u64>,
                DwarfError,
            >(e),
        },
{
    let encoding = info.encoding;
    let stack_size_encoded = (encoding >> 16u32) & 0xFF;
    let stack_adjust = (encoding >> 13u32) & 0x7;
    let reg_count = (encoding >> 10u32) & 0x7;
    let mut permutation = encoding & 0x3FF;
    proof {
        assert(((encoding >> 16u32) & 0xFF) <= 0xFF) by (bit_vector);
        assert(((encoding >> 13u32) & 0x7) <= 7) by (bit_vector);
        assert(((encoding >> 10u32) & 0x7) <= 7) by (bit_vector);
    }
    if reg_count > 6 {
        return Err(DwarfError::InvalidRegisterLocation);
    }

    // Calculate the stack size.
    let stack_size: u32 = if imm {
        stack_size_encoded * 8
    } else {
        // The stack size is encoded in a sub instruction in the prolog.
        let subl = match m.read_u32(info.start.wrapping_add(stack_size_encoded as u64)) {
            Ok(v) => v,
            Err(e) => return Err(e),
        };
        subl.wrapping_add(8 * stack_adjust)
    };

    // Decompress the Lehmer-coded register permutation.
    let mut regs6: [u32; 6] = [0u32; 6];
    if reg_count == 6 || reg_count == 5 {
        regs6[0] = permutation / 120;
        permutation = permutation % 120;
        regs6[1] = permutation / 24;
        permutation = permutation % 24;
        regs6[2] = permutation / 6;
        permutation = permutation % 6;
        regs6[3] = permutation / 2;
        permutation = permutation % 2;
        regs6[4] = permutation;
    } else if reg_count == 4 {
        regs6[0] = permutation / 60;
        permutation = permutation % 60;
        regs6[1] = permutation / 12;
        permutation = permutation % 12;
        regs6[2] = permutation / 3;
        permutation = permutation % 3;
        regs6[3] = permutation;
    } else if reg_count == 3 {
        regs6[0] = permutation / 20;
        permutation = permutation % 20;
        regs6[1] = permutation / 4;
        permutation = permutation % 4;
        regs6[2] = permutation;
    } else if reg_count == 2 {
        regs6[0] = permutation / 5;
        permutation = permutation % 5;
        regs6[1] = permutation;
    } else if reg_count == 1 {
        regs6[0] = permutation;
    }
    proof {
        assert(regs6@ =~= spec_lehmer(encoding & 0x3FF, reg_count));
    }
    let ghost regs6_spec: Seq<u32> = regs6@;

    // Renumber back to absolute compact register numbers: entry n names
    // the regs6[n]-th not-yet-used number in 1 to 6.
    let mut register_saved: [u32; 6] = [0u32; 6];
    let mut used: [bool; 7] = [false; 7];
    proof {
        assert(used@ =~= Seq::new(7, |i: int| false));
        assert(register_saved@ =~= seq![0u32, 0u32, 0u32, 0u32, 0u32, 0u32]);
    }
    let mut n: usize = 0;
    while n < reg_count as usize
        invariant
            n <= reg_count as usize,
            reg_count <= 6,
            reg_count == (info.encoding >> 10u32) & 0x7,
            spec_frameless_stack_size(*m, info.start, info.encoding, imm) == Ok::<u32, DwarfError>(
                stack_size,
            ),
            regs6_spec == spec_lehmer(info.encoding & 0x3FF, reg_count),
            regs6@ == regs6_spec,
            registers.arch == old(registers).arch,
            registers.arch == Arch::X64,
            *registers == *old(registers),
            forall|k: int| 0 <= k < n ==> 1 <= #[trigger] register_saved@[k] <= 6,
            spec_renumber(regs6@, reg_count as int, n as int, used@, register_saved@)
                == spec_renumber(
                regs6_spec,
                reg_count as int,
                0,
                Seq::new(7, |i: int| false),
                seq![0u32, 0u32, 0u32, 0u32, 0u32, 0u32],
            ),
        decreases reg_count as int - n,
    {
        let want0 = regs6[n];
        let mut want = want0;
        let mut u: usize = 1;
        let mut picked: usize = 0;
        loop
            invariant
                1 <= u <= 7,
                want <= want0,
                reg_count == (info.encoding >> 10u32) & 0x7,
                spec_frameless_stack_size(*m, info.start, info.encoding, imm) == Ok::<
                    u32,
                    DwarfError,
                >(stack_size),
                regs6_spec == spec_lehmer(info.encoding & 0x3FF, reg_count),
                *registers == *old(registers),
                registers.arch == old(registers).arch,
                registers.arch == Arch::X64,
                reg_count <= 6,
                n < reg_count as usize,
                regs6@ == regs6_spec,
                want0 == regs6_spec[n as int],
                forall|k: int| 0 <= k < n ==> 1 <= #[trigger] register_saved@[k] <= 6,
                spec_renumber(regs6@, reg_count as int, n as int, used@, register_saved@)
                    == spec_renumber(
                    regs6_spec,
                    reg_count as int,
                    0,
                    Seq::new(7, |i: int| false),
                    seq![0u32, 0u32, 0u32, 0u32, 0u32, 0u32],
                ),
                spec_pick(used@, want, u as int) == spec_pick(used@, want0, 1),
            ensures
                spec_pick(used@, want0, 1) == Some::<int>(picked as int),
                1 <= picked < 7,
                !used@[picked as int],
            decreases 7 - u,
        {
            if u >= 7 {
                return Err(DwarfError::InvalidRegisterLocation);
            }
            if !used[u] {
                if want == 0 {
                    picked = u;
                    break;
                }
                want = want - 1;
            }
            u = u + 1;
        }
        register_saved[n] = picked as u32;
        used[picked] = true;
        n = n + 1;
    }

    // Restore the saved registers from just below the return address.
    let rsp = registers.get(UNW_X86_64_RSP);
    let base_addr = rsp.wrapping_add(stack_size as u64).wrapping_sub(8).wrapping_sub(
        (8 * reg_count) as u64,
    );
    let mut addr = base_addr;
    let ghost file0: Seq<u64> = registers.regs@;
    let ghost saved_spec: Seq<u32> = register_saved@;
    let mut k: usize = 0;
    while k < reg_count as usize
        invariant
            k <= reg_count as usize,
            reg_count <= 6,
            reg_count == (info.encoding >> 10u32) & 0x7,
            spec_frameless_stack_size(*m, info.start, info.encoding, imm) == Ok::<u32, DwarfError>(
                stack_size,
            ),
            regs6_spec == spec_lehmer(info.encoding & 0x3FF, reg_count),
            registers.arch == old(registers).arch,
            registers.arch == Arch::X64,
            register_saved@ == saved_spec,
            file0 == old(registers).regs@,
            spec_renumber(
                regs6_spec,
                reg_count as int,
                0,
                Seq::new(7, |i: int| false),
                seq![0u32, 0u32, 0u32, 0u32, 0u32, 0u32],
            ) == Some(saved_spec),
            base_addr == old(registers).regs@[UNW_X86_64_RSP as int].wrapping_add(
                stack_size as u64,
            ).wrapping_sub(8).wrapping_sub((8 * reg_count) as u64),
            forall|j: int| 0 <= j < reg_count as usize ==> 1 <= #[trigger] saved_spec[j] <= 6,
            addr == base_addr.wrapping_add((8 * k) as u64),
            spec_restore_frameless_regs(
                *m,
                registers.regs@,
                saved_spec,
                reg_count as int,
                addr,
                k as int,
            ) == spec_restore_frameless_regs(
                *m,
                file0,
                saved_spec,
                reg_count as int,
                base_addr,
                0,
            ),
        decreases reg_count as int - k,
    {
        let sel = register_saved[k];
        let v = match m.read_u64(addr) {
            Ok(v) => v,
            Err(e) => return Err(e),
        };
        registers.set(compact_reg(sel), v);
        proof {
            assert(base_addr.wrapping_add((8 * k) as u64).wrapping_add(8) == base_addr.wrapping_add(
                (8 * (k + 1)) as u64,
            )) by {
                assert((8 * k) as u64 as int + 8 == (8 * (k + 1)) as u64 as int);
            };
        }
        addr = addr.wrapping_add(8);
        k = k + 1;
    }

    // The return address is on the stack after the last saved register;
    // the caller's rsp is just past it.
    let ra = match m.read_u64(addr) {
        Ok(v) => v,
        Err(e) => return Err(e),
    };
    registers.set_sp(addr.wrapping_add(8));
    registers.set_pc(ra);
    Ok(())
}

/// Restore `registers` per the rules in `info.encoding`. `Ok(true)` means
/// the bank now describes the parent frame (for DWARF-delegating encodings,
/// after running the named FDE in `sections.dwarf_section`); `Ok(false)`
/// means the encoding names no usable strategy and the bank is unchanged.
pub fn step(
    m: &Memory,
    registers: &mut Registers,
    info: UnwindFuncInfo,
    sections: DyldUnwindSections,
) -> (r: Result<bool, DwarfError>)
    requires
        old(registers).arch == Arch::X64,
    ensures
        final(registers).arch == old(registers).arch,
        match r {
            Ok(b) => spec_step(*m, *old(registers), info, sections) matches Ok(o) && o.0 == b && (b
                ==> o.1 == final(registers).regs@) && (!b ==> *final(registers) == *old(
                registers,
            )),
            Err(e) => spec_step(*m, *old(registers), info, sections) == Err::<
                (bool, Seq<u64>),
                DwarfError,
            >(e),
        },
{
    let mode = info.encoding & UNWIND_X86_64_MODE_MASK;
    if mode == UNWIND_X86_64_MODE_RBP_FRAME {
        match step_frame(m, registers, info.encoding) {
            Ok(_) => Ok(true),
            Err(e) => Err(e),
        }
    } else if mode == UNWIND_X86_64_MODE_STACK_IMMD || mode == UNWIND_X86_64_MODE_STACK_IND {
        match step_frameless(m, registers, info, mode == UNWIND_X86_64_MODE_STACK_IMMD) {
            Ok(_) => Ok(true),
            Err(e) => Err(e),
        }
    } else if mode == UNWIND_X86_64_MODE_DWARF {
        // The low 24 bits locate the FDE inside the image's __eh_frame.
        if sections.dwarf_section == 0 || sections.dwarf_section_length == 0 {
            return Ok(false);
        }
        let fde_addr = sections.dwarf_section.wrapping_add(
            (info.encoding & UNWIND_X86_64_DWARF_SECTION_OFFSET) as u64,
        );
        let (fde, cie) = match FrameDescriptionEntry::decode(m, fde_addr) {
            Ok(v) => v,
            Err(e) => return Err(e),
        };
        let pc = registers.get(UNW_X86_64_RIP);
        match crate::dwarf::step_with_fde(m, pc, &fde, &cie, registers) {
            Ok(_) => Ok(true),
            Err(e) => Err(e),
        }
    } else {
        Ok(false)
    }
}

} // verus!

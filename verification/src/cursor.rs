//! The per-frame unwind loop's engine: [`UnwindCursor::step`] replaces the
//! register bank with the parent frame's registers, using the DWARF unwind
//! metadata of the module containing the current program counter.

use vstd::prelude::*;

use crate::dwarf::{spec_step, DwarfError};
use crate::dyld::SectionInfo;
use crate::mem::Memory;
use crate::registers::Registers;
use crate::Error;

verus! {

/// The first of `sections` whose text range contains `pc`.
pub open spec fn spec_find_section(sections: Seq<SectionInfo>, pc: u64) -> Option<SectionInfo>
    decreases sections.len(),
{
    if sections.len() == 0 {
        None
    } else if sections[0].spec_contains(pc) {
        Some(sections[0])
    } else {
        spec_find_section(sections.drop_first(), pc)
    }
}

/// What one cursor step yields on a register bank: `false` with the bank
/// unchanged when the stack's root is reached (a zero PC, no module
/// containing the PC, or no FDE for it), `true` with the parent frame's
/// register file after a successful step, or the error that stopped the
/// unwind.
pub open spec fn spec_cursor_step(
    m: Memory,
    sections: Seq<SectionInfo>,
    first_step: bool,
    regs: Registers,
) -> Result<(bool, Seq<u64>), Error> {
    let pc = regs.spec_pc();
    if pc == 0 {
        Ok((false, regs.regs@))
    } else {
        let target = if first_step {
            pc
        } else {
            (pc - 1) as u64
        };
        match spec_find_section(sections, target) {
            None => Ok((false, regs.regs@)),
            Some(s) => match spec_step(m, target, s, regs) {
                Ok(new_regs) => Ok((true, new_regs)),
                Err(e) => {
                    if e == DwarfError::FDENotFound {
                        Ok((false, regs.regs@))
                    } else {
                        Err(Error::Dwarf(e))
                    }
                },
            },
        }
    }
}

/// `UnwindCursor` walks the stack one frame at a time over a fixed list of
/// loaded modules, restoring registers from the `.eh_frame` metadata the
/// modules carry.
pub struct UnwindCursor {
    pub sections: Vec<SectionInfo>,
    pub first_step: bool,
}

impl UnwindCursor {
    /// A cursor over the given loaded modules, about to take its first step.
    pub fn new(sections: Vec<SectionInfo>) -> (r: UnwindCursor)
        ensures
            r.sections == sections,
            r.first_step == true,
    {
        UnwindCursor { sections, first_step: true }
    }

    /// Attempt to restore the parent frame's register state from the
    /// current one.
    ///
    /// `Ok(true)` means `registers` now describes the parent frame;
    /// `Ok(false)` means the root of the stack was reached and `registers`
    /// is unchanged; an error means the unwind metadata or the memory image
    /// was inconsistent at this frame.
    ///
    /// A zero PC reports the stack's root at once, with nothing read. On
    /// the first step the PC is looked up as it stands (it points at the
    /// interrupted instruction); on every later step the PC is a return
    /// address, so the lookup uses PC minus one to land inside the calling
    /// instruction's FDE.
    pub fn step(&mut self, m: &Memory, registers: &mut Registers) -> (r: Result<bool, Error>)
        ensures
            final(self).sections == old(self).sections,
            final(registers).arch == old(registers).arch,
            final(self).first_step == (old(self).first_step && old(registers).spec_pc() == 0),
            old(registers).spec_pc() == 0 ==> r == Ok::<bool, Error>(false) && *final(registers)
                == *old(registers),
            match r {
                Ok(true) => spec_cursor_step(
                    *m,
                    old(self).sections@,
                    old(self).first_step,
                    *old(registers),
                ) == Ok::<(bool, Seq<u64>), Error>((true, final(registers).regs@)),
                Ok(false) => spec_cursor_step(
                    *m,
                    old(self).sections@,
                    old(self).first_step,
                    *old(registers),
                ) == Ok::<(bool, Seq<u64>), Error>((false, final(registers).regs@))
                    && *final(registers) == *old(registers),
                Err(e) => spec_cursor_step(
                    *m,
                    old(self).sections@,
                    old(self).first_step,
                    *old(registers),
                ) == Err::<(bool, Seq<u64>), Error>(e) && *final(registers) == *old(registers),
            },
    {
        let mut pc = registers.pc();
        if pc == 0 {
            return Ok(false);
        }
        if self.first_step {
            self.first_step = false;
        } else {
            // From the second step on the PC holds a return address, which
            // points after the call; step back one byte so the lookup lands
            // in the calling instruction's FDE.
            pc = pc - 1;
        }
        let n = self.sections.len();
        let mut i: usize = 0;
        proof {
            assert(self.sections@.skip(0) =~= self.sections@);
        }
        while i < n
            invariant
                i <= n,
                n == self.sections@.len(),
                *registers == *old(registers),
                self.sections == old(self).sections,
                self.first_step == false,
                old(registers).spec_pc() != 0,
                pc == (if old(self).first_step {
                    old(registers).spec_pc()
                } else {
                    (old(registers).spec_pc() - 1) as u64
                }),
                spec_find_section(self.sections@, pc) == spec_find_section(
                    self.sections@.skip(i as int),
                    pc,
                ),
            decreases n - i,
        {
            proof {
                assert(self.sections@.skip(i as int)[0] == self.sections@[i as int]);
                assert(self.sections@.skip(i as int).drop_first() =~= self.sections@.skip(
                    i as int + 1,
                ));
            }
            let s = self.sections[i];
            if s.contains(pc) {
                match crate::dwarf::step(m, pc, &s, registers) {
                    Ok(_) => {
                        return Ok(true);
                    },
                    Err(DwarfError::FDENotFound) => {
                        return Ok(false);
                    },
                    Err(e) => {
                        return Err(Error::Dwarf(e));
                    },
                }
            }
            i = i + 1;
        }
        proof {
            assert(self.sections@.skip(n as int) =~= Seq::<SectionInfo>::empty());
        }
        Ok(false)
    }
}

/// Restore the parent frame's registers by chasing the frame-pointer
/// chain: the saved frame pointer lies at the current frame pointer, and
/// the return address right above it. This is the whole unwind strategy on
/// macOS/aarch64, whose ABI guarantees the chain.
pub fn step_frame_pointer(m: &Memory, registers: &mut Registers) -> (r: Result<bool, Error>)
    requires
        old(registers).arch == crate::registers::Arch::Aarch64,
    ensures
        final(registers).arch == old(registers).arch,
        match r {
            Ok(true) => ({
                let fp = old(registers).regs@[crate::registers::UNW_ARM64_FP as int];
                &&& fp != 0
                &&& m.u64_at(fp.wrapping_add(8)) matches Some(ra) && m.u64_at(fp) matches Some(
                    parent_fp,
                ) && final(registers).regs@ == old(registers).regs@.update(
                    crate::registers::UNW_ARM64_PC as int,
                    ra,
                ).update(crate::registers::UNW_ARM64_FP as int, parent_fp)
            }),
            Ok(false) => old(registers).regs@[crate::registers::UNW_ARM64_FP as int] == 0
                && *final(registers) == *old(registers),
            Err(e) => ({
                let fp = old(registers).regs@[crate::registers::UNW_ARM64_FP as int];
                &&& fp != 0
                &&& (m.u64_at(fp.wrapping_add(8)) is None && e == Error::Dwarf(
                    DwarfError::UnreadableAddress(fp.wrapping_add(8)),
                ) || m.u64_at(fp.wrapping_add(8)) is Some && m.u64_at(fp) is None && e
                    == Error::Dwarf(DwarfError::UnreadableAddress(fp)))
                &&& *final(registers) == *old(registers)
            }),
        },
{
    let fp = registers.get(crate::registers::UNW_ARM64_FP);
    if fp == 0 {
        return Ok(false);
    }
    let ra = match m.read_u64(fp.wrapping_add(8)) {
        Ok(v) => v,
        Err(e) => return Err(Error::Dwarf(e)),
    };
    let parent_fp = match m.read_u64(fp) {
        Ok(v) => v,
        Err(e) => return Err(Error::Dwarf(e)),
    };
    registers.set_pc(ra);
    registers.set(crate::registers::UNW_ARM64_FP, parent_fp);
    Ok(true)
}

} // verus!

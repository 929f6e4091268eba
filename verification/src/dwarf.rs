//! The DWARF call-frame-information engine.
//!
//! `.eh_frame_hdr` / `.eh_frame` parsing, CFI interpretation and DWARF
//! expression evaluation, composed by [`step`] into the per-frame register
//! restore.

use vstd::prelude::*;

pub mod cfi;
pub mod consts;
pub mod encoding;
pub mod expression;
pub mod header;
pub mod instruction;

use crate::dwarf::cfi::{spec_scan, scan, CommonInformationEntry, FrameDescriptionEntry};
use crate::dwarf::header::{spec_header, spec_header_search, EhFrameHeader};
use crate::dwarf::instruction::{
    get_saved_float_register, get_saved_register, run, spec_cfa, spec_get_saved_float_register,
    spec_get_saved_register, spec_run, PrologInfo, PrologSpec, RegisterSavedWhere,
};
use crate::dyld::SectionInfo;
use crate::mem::Memory;
use crate::registers::{
    spec_ip_index, spec_max_register_num, spec_sp_index, spec_valid_float_register,
    spec_valid_register, Arch, Registers, UNW_ARM64_RA_SIGN_STATE,
};

verus! {

/// Everything that can go wrong while decoding or applying unwind metadata.
#[derive(Debug, Copy, Clone, PartialEq, Eq, Structural)]
pub enum DwarfError {
    /// The `.eh_frame_hdr` version field was not 1.
    InvalidHeaderVersion(u8),
    /// A CIE record had length zero.
    CIEZeroLength,
    /// The CIE-ID field of a CIE was not zero.
    CIEIdIsNotZero,
    /// A CIE version other than 1 or 3.
    CIEInvalidVersion(u8),
    /// No FDE covers the requested program counter.
    FDENotFound,
    /// An FDE record had length zero.
    FDEZeroLength,
    /// A record parsed as an FDE has a zero CIE pointer, so it is a CIE.
    FDEIsReallyCIE,
    /// A CFI instruction named a register above the supported maximum.
    InvalidRegisterNumber(usize),
    /// The CFA rule named an invalid register.
    InvalidCfaRegisterNumber(usize),
    /// The CIE's return-address register is invalid.
    InvalidReturnAddressRegisterNumber(usize),
    /// An undefined CFI opcode.
    InvalidInstruction(u8),
    /// An undefined DWARF expression opcode, or an expression that exhausted
    /// its evaluation budget or its value stack.
    InvalidExpression(u8),
    /// A `DW_OP_deref_size` width other than 1, 2, 4 or 8.
    InvalidExpressionDerefSize(u8),
    /// A DWARF expression named a register the bank does not hold.
    InvalidExpressionRegisterNumber(u32),
    /// The relocation-base bits of a pointer encoding are unsupported.
    InvalidPointerEncodingOffset(u8),
    /// The value-width bits of a pointer encoding are unsupported.
    InvalidPointerEncodingValue(u8),
    /// The binary-search table of `.eh_frame_hdr` has an unsupported entry width.
    InvalidPointerEncodingSize(u8),
    /// A data-relative pointer encoding with no data-relative base supplied.
    InvalidDataRelBase,
    /// A saved-register rule that the step driver cannot apply.
    InvalidRegisterLocation,
    /// `DW_CFA_restore_state` with no matching `DW_CFA_remember_state`.
    NoRememberState,
    /// A load fell outside the captured readable ranges.
    UnreadableAddress(u64),
    /// The return address is signed (ARMv8.3 PAC) and cannot be verified here.
    UnimplementedRaSignState,
    /// A ULEB128 whose continuation would overflow 64 bits.
    MalformedUleb128Expression(u64),
    /// A ULEB128 cut short by the end of its record.
    TruncatedUleb128Expression(u64),
    /// An SLEB128 cut short by the end of its record.
    TruncatedSleb128Expression(u64),
    /// The prolog info defines the CFA neither by register nor by expression.
    NoWayToCalculateCfa,
}

/// The FDE and CIE covering `pc` in `section`: the `.eh_frame_hdr` binary
/// search, with a full `.eh_frame` scan as the fallback when the table's
/// answer does not pan out.
#[verifier::opaque]
pub open spec fn spec_search_fde(m: Memory, pc: u64, s: SectionInfo) -> Result<
    (FrameDescriptionEntry, CommonInformationEntry),
    DwarfError,
> {
    let end = s.eh_frame_hdr.wrapping_add(s.eh_frame_hdr_len);
    match spec_header(m, s.eh_frame_hdr, end) {
        Err(e) => Err(e),
        Ok(header) => match spec_header_search(m, header, pc) {
            Ok(v) => Ok(v),
            Err(e) => {
                if e == DwarfError::FDENotFound {
                    spec_scan(m, header.eh_frame, u64::MAX, pc)
                } else {
                    Err(e)
                }
            },
        },
    }
}

/// Search `section` for the FDE and CIE covering `pc`.
pub fn search_fde(m: &Memory, pc: u64, s: &SectionInfo) -> (r: Result<
    (FrameDescriptionEntry, CommonInformationEntry),
    DwarfError,
>)
    ensures
        r == spec_search_fde(*m, pc, *s),
        r matches Ok(fc) ==> fc.0.spec_contains(pc),
{
    proof {
        reveal(spec_search_fde);
    }
    let end = s.eh_frame_hdr.wrapping_add(s.eh_frame_hdr_len);
    let header = match EhFrameHeader::decode(m, s.eh_frame_hdr, end) {
        Ok(v) => v,
        Err(e) => return Err(e),
    };
    match header.search(m, pc) {
        Ok(v) => Ok(v),
        Err(DwarfError::FDENotFound) => scan(m, header.eh_frame, u64::MAX, pc),
        Err(e) => Err(e),
    }
}

/// One pass of the register-restore loop: apply the rules for registers
/// `n` and above to the register file `new_regs`, reading saved values
/// through the old snapshot `regs`. `ra` carries the return address
/// captured from the return-address register's rule.
pub open spec fn spec_restore_loop(
    m: Memory,
    info: PrologSpec,
    cie: CommonInformationEntry,
    regs: Registers,
    new_regs: Seq<u64>,
    ra: u64,
    n: int,
    cfa: u64,
) -> Result<(Seq<u64>, u64), DwarfError>
    decreases spec_max_register_num(regs.arch) + 1 - n,
{
    let arch = regs.arch;
    if n > spec_max_register_num(arch) {
        Ok((new_regs, ra))
    } else {
        let rule = info.saved[n];
        if rule.location != RegisterSavedWhere::Unused {
            if spec_valid_float_register(arch, n as usize) {
                match spec_get_saved_float_register(m, regs, rule, cfa) {
                    Err(e) => Err(e),
                    Ok(v) => spec_restore_loop(
                        m,
                        info,
                        cie,
                        regs,
                        new_regs.update(n, v),
                        ra,
                        n + 1,
                        cfa,
                    ),
                }
            } else if n == cie.return_address_register as usize {
                match spec_get_saved_register(m, regs, rule, cfa) {
                    Err(e) => Err(e),
                    Ok(v) => spec_restore_loop(m, info, cie, regs, new_regs, v, n + 1, cfa),
                }
            } else if spec_valid_register(arch, n as usize) {
                match spec_get_saved_register(m, regs, rule, cfa) {
                    Err(e) => Err(e),
                    Ok(v) => spec_restore_loop(
                        m,
                        info,
                        cie,
                        regs,
                        new_regs.update(n, v),
                        ra,
                        n + 1,
                        cfa,
                    ),
                }
            } else {
                Err(DwarfError::InvalidRegisterNumber(n as usize))
            }
        } else if n == cie.return_address_register as usize {
            // A leaf function keeps the return address live in its register
            // and lists no rule for it: read it straight from the old
            // snapshot.
            if !spec_valid_register(arch, cie.return_address_register as usize) {
                Err(
                    DwarfError::InvalidReturnAddressRegisterNumber(
                        cie.return_address_register as usize,
                    ),
                )
            } else {
                spec_restore_loop(m, info, cie, regs, new_regs, regs.regs@[n], n + 1, cfa)
            }
        } else {
            spec_restore_loop(m, info, cie, regs, new_regs, ra, n + 1, cfa)
        }
    }
}

/// The register file after one DWARF step over `fde`: the prolog info from
/// the CFI run, the CFA it defines, every listed register restored, the
/// stack pointer set to the CFA and the program counter to the recovered
/// return address.
#[verifier::opaque]
pub open spec fn spec_step_with_fde(
    m: Memory,
    pc: u64,
    fde: FrameDescriptionEntry,
    cie: CommonInformationEntry,
    regs: Registers,
) -> Result<Seq<u64>, DwarfError> {
    match spec_run(m, regs.arch, pc, fde, cie) {
        Err(e) => Err(e),
        Ok(info) => match spec_cfa(info, m, regs) {
            Err(e) => Err(e),
            Ok(cfa) => {
                let new0 = regs.regs@.update(spec_sp_index(regs.arch) as int, cfa);
                match spec_restore_loop(m, info, cie, regs, new0, 0, 0, cfa) {
                    Err(e) => Err(e),
                    Ok((new1, ra)) => {
                        if regs.arch == Arch::Aarch64 && info.saved[
                            UNW_ARM64_RA_SIGN_STATE as int
                        ].value != 0 && ra != 0 {
                            Err(DwarfError::UnimplementedRaSignState)
                        } else {
                            Ok(new1.update(spec_ip_index(regs.arch) as int, ra))
                        }
                    },
                }
            },
        },
    }
}

/// The register file after one full DWARF step at `pc` in `section`.
pub open spec fn spec_step(m: Memory, pc: u64, s: SectionInfo, regs: Registers) -> Result<
    Seq<u64>,
    DwarfError,
> {
    match spec_search_fde(m, pc, s) {
        Err(e) => Err(e),
        Ok((fde, cie)) => spec_step_with_fde(m, pc, fde, cie, regs),
    }
}

/// Apply the unwind rules of `fde` to `registers`, replacing them with the
/// parent frame's register state.
pub fn step_with_fde(
    m: &Memory,
    pc: u64,
    fde: &FrameDescriptionEntry,
    cie: &CommonInformationEntry,
    registers: &mut Registers,
) -> (r: Result<(), DwarfError>)
    ensures
        final(registers).arch == old(registers).arch,
        match r {
            Ok(_) => spec_step_with_fde(*m, pc, *fde, *cie, *old(registers)) == Ok::<
                Seq<u64>,
                DwarfError,
            >(final(registers).regs@),
            Err(e) => spec_step_with_fde(*m, pc, *fde, *cie, *old(registers)) == Err::<
                Seq<u64>,
                DwarfError,
            >(e) && *final(registers) == *old(registers),
        },
{
    proof {
        reveal(spec_step_with_fde);
    }
    // Run the CFI instructions to learn the frame's layout.
    let info = match run(m, registers.arch, pc, fde, cie) {
        Ok(v) => v,
        Err(e) => return Err(e),
    };

    // Compute the canonical frame address.
    let cfa = match info.cfa(m, registers) {
        Ok(v) => v,
        Err(e) => return Err(e),
    };

    // Restore the registers the CFI says were saved, into a scratch copy.
    let mut new_registers = *registers;

    // The CFA is, by DWARF convention, the stack pointer at the call site
    // in the previous frame. A CFI rule for the stack pointer below may
    // still override this.
    new_registers.set_sp(cfa);

    let mut return_address: u64 = 0;
    let max = registers.max_register_num();
    let mut n: usize = 0;
    while n <= max
        invariant
            *registers == *old(registers),
            new_registers.arch == registers.arch,
            max == spec_max_register_num(registers.arch),
            max < 96,
            n <= max + 1,
            spec_run(*m, registers.arch, pc, *fde, *cie) == Ok::<PrologSpec, DwarfError>(info@),
            spec_cfa(info@, *m, *registers) == Ok::<u64, DwarfError>(cfa),
            spec_restore_loop(
                *m,
                info@,
                *cie,
                *registers,
                new_registers.regs@,
                return_address,
                n as int,
                cfa,
            ) == spec_restore_loop(
                *m,
                info@,
                *cie,
                *registers,
                old(registers).regs@.update(spec_sp_index(registers.arch) as int, cfa),
                0,
                0,
                cfa,
            ),
        decreases max + 1 - n,
    {
        proof {
            reveal(spec_step_with_fde);
        }
        let rule = info.saved_registers[n];
        if !(matches!(rule.location, RegisterSavedWhere::Unused)) {
            if registers.valid_float_register(n) {
                let v = match get_saved_float_register(m, registers, rule, cfa) {
                    Ok(v) => v,
                    Err(e) => return Err(e),
                };
                new_registers.set_float_register(n, v);
            } else if n == cie.return_address_register as usize {
                return_address = match get_saved_register(m, registers, rule, cfa) {
                    Ok(v) => v,
                    Err(e) => return Err(e),
                };
            } else if registers.valid_register(n) {
                let v = match get_saved_register(m, registers, rule, cfa) {
                    Ok(v) => v,
                    Err(e) => return Err(e),
                };
                new_registers.set(n, v);
            } else {
                return Err(DwarfError::InvalidRegisterNumber(n));
            }
        } else if n == cie.return_address_register as usize {
            // A leaf function keeps the return address in its register with
            // no explicit rule for restoring it.
            if !registers.valid_register(cie.return_address_register as usize) {
                return Err(
                    DwarfError::InvalidReturnAddressRegisterNumber(
                        cie.return_address_register as usize,
                    ),
                );
            }
            return_address = registers.get(n);
        }
        n = n + 1;
    }

    // A signed return address (ARMv8.3 pointer authentication) cannot be
    // verified here; report it rather than resume through it.
    if matches!(registers.arch, Arch::Aarch64) {
        if info.saved_registers[UNW_ARM64_RA_SIGN_STATE].value != 0 && return_address != 0 {
            return Err(DwarfError::UnimplementedRaSignState);
        }
    }

    // The return address is the instruction after the call site; setting
    // the PC to it simulates the return.
    new_registers.set_pc(return_address);

    // Commit the step by replacing the register set with the new one.
    *registers = new_registers;
    Ok(())
}

/// Unwind one frame: find the FDE covering `pc` in `section`, run its CFI,
/// and replace `registers` with the parent frame's register state.
pub fn step(m: &Memory, pc: u64, section: &SectionInfo, registers: &mut Registers) -> (r: Result<
    (),
    DwarfError,
>)
    ensures
        final(registers).arch == old(registers).arch,
        match r {
            Ok(_) => spec_step(*m, pc, *section, *old(registers)) == Ok::<Seq<u64>, DwarfError>(
                final(registers).regs@,
            ),
            Err(e) => spec_step(*m, pc, *section, *old(registers)) == Err::<Seq<u64>, DwarfError>(
                e,
            ) && *final(registers) == *old(registers),
        },
{
    let (fde, cie) = match search_fde(m, pc, section) {
        Ok(v) => v,
        Err(e) => return Err(e),
    };
    step_with_fde(m, pc, &fde, &cie, registers)
}

/// The restore loop preserves the register file's length.
proof fn lemma_restore_loop_len(
    m: Memory,
    info: PrologSpec,
    cie: CommonInformationEntry,
    regs: Registers,
    new_regs: Seq<u64>,
    ra: u64,
    n: int,
    cfa: u64,
)
    requires
        0 <= n,
        new_regs.len() == 96,
        spec_restore_loop(m, info, cie, regs, new_regs, ra, n, cfa) is Ok,
    ensures
        spec_restore_loop(m, info, cie, regs, new_regs, ra, n, cfa)->Ok_0.0.len()
            == new_regs.len(),
    decreases spec_max_register_num(regs.arch) + 1 - n,
{
    let arch = regs.arch;
    if n > spec_max_register_num(arch) {
    } else {
        let rule = info.saved[n];
        if rule.location != RegisterSavedWhere::Unused {
            if spec_valid_float_register(arch, n as usize) {
                match spec_get_saved_float_register(m, regs, rule, cfa) {
                    Ok(v) => {
                        lemma_restore_loop_len(m, info, cie, regs, new_regs.update(n, v), ra, n + 1, cfa);
                    },
                    Err(_) => {},
                }
            } else if n == cie.return_address_register as usize {
                match spec_get_saved_register(m, regs, rule, cfa) {
                    Ok(v) => {
                        lemma_restore_loop_len(m, info, cie, regs, new_regs, v, n + 1, cfa);
                    },
                    Err(_) => {},
                }
            } else if spec_valid_register(arch, n as usize) {
                match spec_get_saved_register(m, regs, rule, cfa) {
                    Ok(v) => {
                        lemma_restore_loop_len(m, info, cie, regs, new_regs.update(n, v), ra, n + 1, cfa);
                    },
                    Err(_) => {},
                }
            } else {
            }
        } else if n == cie.return_address_register as usize {
            if spec_valid_register(arch, cie.return_address_register as usize) {
                lemma_restore_loop_len(m, info, cie, regs, new_regs, regs.regs@[n], n + 1, cfa);
            }
        } else {
            lemma_restore_loop_len(m, info, cie, regs, new_regs, ra, n + 1, cfa);
        }
    }
}

/// A register slot the restore loop never writes keeps its value: one the
/// loop has already passed, one whose rule is untouched, or the non-float
/// return-address register, whose recovered value goes to the program
/// counter instead.
proof fn lemma_restore_loop_unchanged(
    m: Memory,
    info: PrologSpec,
    cie: CommonInformationEntry,
    regs: Registers,
    new_regs: Seq<u64>,
    ra: u64,
    n: int,
    cfa: u64,
    k: int,
)
    requires
        0 <= n,
        new_regs.len() == 96,
        spec_restore_loop(m, info, cie, regs, new_regs, ra, n, cfa) is Ok,
        0 <= k < new_regs.len(),
        k < n || info.saved[k].location == RegisterSavedWhere::Unused || (k
            == cie.return_address_register as int && !spec_valid_float_register(
            regs.arch,
            k as usize,
        )),
    ensures
        spec_restore_loop(m, info, cie, regs, new_regs, ra, n, cfa)->Ok_0.0[k] == new_regs[k],
    decreases spec_max_register_num(regs.arch) + 1 - n,
{
    let arch = regs.arch;
    if n > spec_max_register_num(arch) {
    } else {
        let rule = info.saved[n];
        if rule.location != RegisterSavedWhere::Unused {
            if spec_valid_float_register(arch, n as usize) {
                match spec_get_saved_float_register(m, regs, rule, cfa) {
                    Ok(v) => {
                        lemma_restore_loop_unchanged(m, info, cie, regs, new_regs.update(n, v), ra, n + 1, cfa, k);
                    },
                    Err(_) => {},
                }
            } else if n == cie.return_address_register as usize {
                match spec_get_saved_register(m, regs, rule, cfa) {
                    Ok(v) => {
                        lemma_restore_loop_unchanged(m, info, cie, regs, new_regs, v, n + 1, cfa, k);
                    },
                    Err(_) => {},
                }
            } else if spec_valid_register(arch, n as usize) {
                match spec_get_saved_register(m, regs, rule, cfa) {
                    Ok(v) => {
                        lemma_restore_loop_unchanged(m, info, cie, regs, new_regs.update(n, v), ra, n + 1, cfa, k);
                    },
                    Err(_) => {},
                }
            } else {
            }
        } else if n == cie.return_address_register as usize {
            if spec_valid_register(arch, cie.return_address_register as usize) {
                lemma_restore_loop_unchanged(m, info, cie, regs, new_regs, regs.regs@[n], n + 1, cfa, k);
            }
        } else {
            lemma_restore_loop_unchanged(m, info, cie, regs, new_regs, ra, n + 1, cfa, k);
        }
    }
}

/// Once the loop is past the return-address register, the captured return
/// address rides through unchanged.
proof fn lemma_restore_loop_ra_stable(
    m: Memory,
    info: PrologSpec,
    cie: CommonInformationEntry,
    regs: Registers,
    new_regs: Seq<u64>,
    ra: u64,
    n: int,
    cfa: u64,
)
    requires
        0 <= n,
        new_regs.len() == 96,
        spec_restore_loop(m, info, cie, regs, new_regs, ra, n, cfa) is Ok,
        n > cie.return_address_register as int,
    ensures
        spec_restore_loop(m, info, cie, regs, new_regs, ra, n, cfa)->Ok_0.1 == ra,
    decreases spec_max_register_num(regs.arch) + 1 - n,
{
    let arch = regs.arch;
    if n > spec_max_register_num(arch) {
    } else {
        let rule = info.saved[n];
        if rule.location != RegisterSavedWhere::Unused {
            if spec_valid_float_register(arch, n as usize) {
                match spec_get_saved_float_register(m, regs, rule, cfa) {
                    Ok(v) => {
                        lemma_restore_loop_ra_stable(m, info, cie, regs, new_regs.update(n, v), ra, n + 1, cfa);
                    },
                    Err(_) => {},
                }
            } else if spec_valid_register(arch, n as usize) {
                match spec_get_saved_register(m, regs, rule, cfa) {
                    Ok(v) => {
                        lemma_restore_loop_ra_stable(m, info, cie, regs, new_regs.update(n, v), ra, n + 1, cfa);
                    },
                    Err(_) => {},
                }
            } else {
            }
        } else {
            lemma_restore_loop_ra_stable(m, info, cie, regs, new_regs, ra, n + 1, cfa);
        }
    }
}

/// A leaf frame's return address comes straight from the return-address
/// register of the old snapshot: when that register's rule is untouched,
/// the loop captures its live value.
proof fn lemma_restore_loop_leaf_ra(
    m: Memory,
    info: PrologSpec,
    cie: CommonInformationEntry,
    regs: Registers,
    new_regs: Seq<u64>,
    ra: u64,
    n: int,
    cfa: u64,
)
    requires
        0 <= n,
        new_regs.len() == 96,
        spec_restore_loop(m, info, cie, regs, new_regs, ra, n, cfa) is Ok,
        n <= cie.return_address_register as int <= spec_max_register_num(regs.arch),
        info.saved[cie.return_address_register as int].location == RegisterSavedWhere::Unused,
    ensures
        spec_restore_loop(m, info, cie, regs, new_regs, ra, n, cfa)->Ok_0.1 == regs.regs@[
            cie.return_address_register as int
        ],
    decreases spec_max_register_num(regs.arch) + 1 - n,
{
    let arch = regs.arch;
    let rr = cie.return_address_register as int;
    if n > spec_max_register_num(arch) {
    } else if n == rr {
        let captured = regs.regs@[n];
        lemma_restore_loop_ra_stable(m, info, cie, regs, new_regs, captured, n + 1, cfa);
    } else {
        let rule = info.saved[n];
        if rule.location != RegisterSavedWhere::Unused {
            if spec_valid_float_register(arch, n as usize) {
                match spec_get_saved_float_register(m, regs, rule, cfa) {
                    Ok(v) => {
                        lemma_restore_loop_leaf_ra(m, info, cie, regs, new_regs.update(n, v), ra, n + 1, cfa);
                    },
                    Err(_) => {},
                }
            } else if spec_valid_register(arch, n as usize) {
                match spec_get_saved_register(m, regs, rule, cfa) {
                    Ok(v) => {
                        lemma_restore_loop_leaf_ra(m, info, cie, regs, new_regs.update(n, v), ra, n + 1, cfa);
                    },
                    Err(_) => {},
                }
            } else {
            }
        } else {
            lemma_restore_loop_leaf_ra(m, info, cie, regs, new_regs, ra, n + 1, cfa);
        }
    }
}

/// What a successful DWARF step changes, and to what: the new stack
/// pointer is the computed CFA whenever the CFI lists no explicit rule for
/// the stack pointer; every register the CFI leaves untouched keeps its
/// value, so only the program counter, the stack pointer and the listed
/// registers change; and a leaf frame (no rule for the return-address
/// register) returns through the address still live in that register.
pub proof fn lemma_step_parent_frame(
    m: Memory,
    pc: u64,
    fde: FrameDescriptionEntry,
    cie: CommonInformationEntry,
    regs: Registers,
    info: PrologSpec,
    cfa: u64,
    file: Seq<u64>,
)
    requires
        regs.regs@.len() == 96,
        spec_run(m, regs.arch, pc, fde, cie) == Ok::<PrologSpec, DwarfError>(info),
        spec_cfa(info, m, regs) == Ok::<u64, DwarfError>(cfa),
        spec_step_with_fde(m, pc, fde, cie, regs) == Ok::<Seq<u64>, DwarfError>(file),
    ensures
        file.len() == 96,
        (info.saved[spec_sp_index(regs.arch) as int].location == RegisterSavedWhere::Unused
            || spec_sp_index(regs.arch) as int == cie.return_address_register as int) ==> file[
            spec_sp_index(regs.arch) as int
        ] == cfa,
        forall|k: int|
            0 <= k < 96 && k != spec_ip_index(regs.arch) as int && k != spec_sp_index(
                regs.arch,
            ) as int && info.saved[k].location == RegisterSavedWhere::Unused ==> file[k]
                == regs.regs@[k],
        (info.saved[cie.return_address_register as int].location == RegisterSavedWhere::Unused
            && cie.return_address_register as int <= spec_max_register_num(regs.arch)) ==> file[
            spec_ip_index(regs.arch) as int
        ] == regs.regs@[cie.return_address_register as int],
{
    reveal(spec_step_with_fde);
    let sp = spec_sp_index(regs.arch) as int;
    let ip = spec_ip_index(regs.arch) as int;
    let rr = cie.return_address_register as int;
    let new0 = regs.regs@.update(sp, cfa);
    let out = spec_restore_loop(m, info, cie, regs, new0, 0, 0, cfa)->Ok_0;
    lemma_restore_loop_len(m, info, cie, regs, new0, 0, 0, cfa);
    assert(file == out.0.update(ip, out.1));
    if info.saved[sp].location == RegisterSavedWhere::Unused || sp == rr {
        lemma_restore_loop_unchanged(m, info, cie, regs, new0, 0, 0, cfa, sp);
    }
    assert forall|k: int|
        0 <= k < 96 && k != ip && k != sp && info.saved[k].location
            == RegisterSavedWhere::Unused implies file[k] == regs.regs@[k] by {
        lemma_restore_loop_unchanged(m, info, cie, regs, new0, 0, 0, cfa, k);
    };
    if info.saved[rr].location == RegisterSavedWhere::Unused && rr <= spec_max_register_num(
        regs.arch,
    ) {
        lemma_restore_loop_leaf_ra(m, info, cie, regs, new0, 0, 0, cfa);
    }
}

} // verus!

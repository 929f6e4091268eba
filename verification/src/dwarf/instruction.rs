//! The call-frame-instruction interpreter: it "runs" a CIE's initial
//! instructions and an FDE's instruction stream up to a target PC offset,
//! producing the [`PrologInfo`] that describes how to recover every
//! register of the caller's frame.
//!
//! The executable interpreter is specified against a specification-level
//! machine: `spec_run_step` fixes the effect of every instruction, and
//! `spec_run_rec` runs the stream under a byte-count budget.

use vstd::prelude::*;

use crate::dwarf::cfi::{CommonInformationEntry, FrameDescriptionEntry};
use crate::dwarf::consts::{
    DW_CFA_AARCH64_NEGATE_RA_STATE, DW_CFA_ADVANCE_LOC, DW_CFA_ADVANCE_LOC1, DW_CFA_ADVANCE_LOC2,
    DW_CFA_ADVANCE_LOC4, DW_CFA_DEF_CFA, DW_CFA_DEF_CFA_EXPRESSION, DW_CFA_DEF_CFA_OFFSET,
    DW_CFA_DEF_CFA_OFFSET_SF, DW_CFA_DEF_CFA_REGISTER, DW_CFA_DEF_CFA_SF, DW_CFA_EXPRESSION,
    DW_CFA_GNU_ARGS_SIZE, DW_CFA_GNU_NEGATIVE_OFFSET_EXTENDED, DW_CFA_NOP, DW_CFA_OFFSET,
    DW_CFA_OFFSET_EXTENDED, DW_CFA_OFFSET_EXTENDED_SF, DW_CFA_REGISTER, DW_CFA_REMEMBER_STATE,
    DW_CFA_RESTORE, DW_CFA_RESTORE_EXTENDED, DW_CFA_RESTORE_STATE, DW_CFA_SAME_VALUE,
    DW_CFA_SET_LOC, DW_CFA_UNDEFINED, DW_CFA_VAL_EXPRESSION, DW_CFA_VAL_OFFSET,
    DW_CFA_VAL_OFFSET_SF,
};
use crate::dwarf::encoding::{
    decode_pointer, decode_sleb128, decode_uleb128, spec_pointer, spec_sleb128, spec_uleb128,
};
use crate::dwarf::expression::{evaluate, spec_evaluate};
use crate::dwarf::DwarfError;
use crate::mem::Memory;
use crate::registers::{spec_valid_register, Arch, Registers, UNW_ARM64_RA_SIGN_STATE};

verus! {

/// The largest DWARF register number the prolog table holds a rule for.
pub const MAX_REGISTER_NUM: usize = 287;

/// Where a register's saved value lives, per the CFI rules in force.
#[derive(Debug, Copy, Clone, PartialEq, Eq, Structural)]
pub enum RegisterSavedWhere {
    Unused,
    Undefined,
    InCFA,
    OffsetFromCFA,
    InRegister,
    AtExpression,
    IsExpression,
}

/// One register's recovery rule: where its saved value lives and the
/// rule's operand (an offset, a register number, or an expression address).
#[derive(Debug, Copy, Clone, PartialEq, Eq, Structural)]
pub struct RegisterLocation {
    pub location: RegisterSavedWhere,
    pub initial_state_saved: bool,
    pub value: i64,
}

/// Information about a frame's layout and saved registers, determined by
/// running the CFI instructions: the CFA rule and one recovery rule per
/// register.
#[derive(Debug, Copy, Clone)]
pub struct PrologInfo {
    pub cfa_register: u32,
    pub cfa_register_offset: i32,
    pub cfa_expression: i64,
    pub sp_extra_arg_size: u32,
    pub saved_registers: [RegisterLocation; 288],
}

/// The specification-level image of a [`PrologInfo`], with the register
/// table as a sequence.
#[verifier::ext_equal]
pub struct PrologSpec {
    pub cfa_register: u32,
    pub cfa_register_offset: i32,
    pub cfa_expression: i64,
    pub sp_extra_arg_size: u32,
    pub saved: Seq<RegisterLocation>,
}

/// The rule every register starts with: untouched.
pub open spec fn unused_rule() -> RegisterLocation {
    RegisterLocation { location: RegisterSavedWhere::Unused, initial_state_saved: false, value: 0 }
}

/// The prolog info every run starts from: no CFA rule, every register
/// untouched.
pub open spec fn ps_default() -> PrologSpec {
    PrologSpec {
        cfa_register: 0,
        cfa_register_offset: 0,
        cfa_expression: 0,
        sp_extra_arg_size: 0,
        saved: Seq::new(288, |i: int| unused_rule()),
    }
}

impl View for PrologInfo {
    type V = PrologSpec;

    open spec fn view(&self) -> PrologSpec {
        PrologSpec {
            cfa_register: self.cfa_register,
            cfa_register_offset: self.cfa_register_offset,
            cfa_expression: self.cfa_expression,
            sp_extra_arg_size: self.sp_extra_arg_size,
            saved: self.saved_registers@,
        }
    }
}

/// Record register `r`'s current rule in the shadow initial state, once,
/// before the rule is first changed.
pub open spec fn ps_save(result: PrologSpec, initial: PrologSpec, r: int) -> (
    PrologSpec,
    PrologSpec,
) {
    if !result.saved[r].initial_state_saved {
        (
            (PrologSpec {
                saved: result.saved.update(
                    r,
                    (RegisterLocation { initial_state_saved: true, ..result.saved[r] }),
                ),
                ..result
            }),
            (PrologSpec { saved: initial.saved.update(r, result.saved[r]), ..initial }),
        )
    } else {
        (result, initial)
    }
}

/// Set register `r`'s rule and operand.
pub open spec fn ps_set_register(
    result: PrologSpec,
    initial: PrologSpec,
    r: int,
    new_loc: RegisterSavedWhere,
    new_v: i64,
) -> (PrologSpec, PrologSpec) {
    let (res, ini) = ps_save(result, initial, r);
    (
        (PrologSpec {
            saved: res.saved.update(
                r,
                (RegisterLocation {
                    location: new_loc,
                    initial_state_saved: res.saved[r].initial_state_saved,
                    value: new_v,
                }),
            ),
            ..res
        }),
        ini,
    )
}

/// Set register `r`'s rule, keeping its operand.
pub open spec fn ps_set_register_location(
    result: PrologSpec,
    initial: PrologSpec,
    r: int,
    new_loc: RegisterSavedWhere,
) -> (PrologSpec, PrologSpec) {
    let (res, ini) = ps_save(result, initial, r);
    (
        (PrologSpec {
            saved: res.saved.update(
                r,
                (RegisterLocation { location: new_loc, ..res.saved[r] }),
            ),
            ..res
        }),
        ini,
    )
}

/// Set register `r`'s operand, keeping its rule.
pub open spec fn ps_set_register_value(
    result: PrologSpec,
    initial: PrologSpec,
    r: int,
    new_v: i64,
) -> (PrologSpec, PrologSpec) {
    let (res, ini) = ps_save(result, initial, r);
    (
        (PrologSpec {
            saved: res.saved.update(r, (RegisterLocation { value: new_v, ..res.saved[r] })),
            ..res
        }),
        ini,
    )
}

/// Put register `r` back to the rule it had before the FDE first changed
/// it; a register never changed keeps its current rule.
pub open spec fn ps_restore(result: PrologSpec, initial: PrologSpec, r: int) -> PrologSpec {
    if result.saved[r].initial_state_saved {
        PrologSpec { saved: result.saved.update(r, initial.saved[r]), ..result }
    } else {
        result
    }
}

impl Default for PrologInfo {
    /// The prolog info a run starts from: every register untouched.
    fn default() -> (r: PrologInfo)
        ensures
            r@ == ps_default(),
    {
        let r = PrologInfo {
            cfa_register: 0,
            cfa_register_offset: 0,
            cfa_expression: 0,
            sp_extra_arg_size: 0,
            saved_registers: [unused_rule_exec(); 288],
        };
        proof {
            assert(r@.saved =~= ps_default().saved);
            assert(r@ =~= ps_default());
        }
        r
    }
}

/// The rule every register starts with, as a value.
fn unused_rule_exec() -> (r: RegisterLocation)
    ensures
        r == unused_rule(),
{
    RegisterLocation { location: RegisterSavedWhere::Unused, initial_state_saved: false, value: 0 }
}

impl PrologInfo {
    /// Set register `r`'s rule and operand, recording its prior rule in
    /// `initial_state` if this is its first change.
    pub fn set_register(
        &mut self,
        r: usize,
        new_loc: RegisterSavedWhere,
        new_v: i64,
        initial_state: &mut PrologInfo,
    )
        requires
            r <= MAX_REGISTER_NUM,
        ensures
            (final(self)@, final(initial_state)@) == ps_set_register(
                old(self)@,
                old(initial_state)@,
                r as int,
                new_loc,
                new_v,
            ),
    {
        self.check_save_register(r, initial_state);
        let prior = self.saved_registers[r];
        self.saved_registers[r] = RegisterLocation {
            location: new_loc,
            initial_state_saved: prior.initial_state_saved,
            value: new_v,
        };
        proof {
            let (res, ini) = ps_set_register(
                old(self)@,
                old(initial_state)@,
                r as int,
                new_loc,
                new_v,
            );
            assert(final(self)@ =~= res);
            assert(final(initial_state)@ =~= ini);
        }
    }

    /// Set register `r`'s rule, recording its prior rule in `initial_state`
    /// if this is its first change.
    pub fn set_register_location(
        &mut self,
        r: usize,
        new_loc: RegisterSavedWhere,
        initial_state: &mut PrologInfo,
    )
        requires
            r <= MAX_REGISTER_NUM,
        ensures
            (final(self)@, final(initial_state)@) == ps_set_register_location(
                old(self)@,
                old(initial_state)@,
                r as int,
                new_loc,
            ),
    {
        self.check_save_register(r, initial_state);
        let prior = self.saved_registers[r];
        self.saved_registers[r] = RegisterLocation { location: new_loc, ..prior };
        proof {
            let (res, ini) = ps_set_register_location(
                old(self)@,
                old(initial_state)@,
                r as int,
                new_loc,
            );
            assert(final(self)@ =~= res);
            assert(final(initial_state)@ =~= ini);
        }
    }

    /// Set register `r`'s operand, recording its prior rule in
    /// `initial_state` if this is its first change.
    pub fn set_register_value(&mut self, r: usize, new_v: i64, initial_state: &mut PrologInfo)
        requires
            r <= MAX_REGISTER_NUM,
        ensures
            (final(self)@, final(initial_state)@) == ps_set_register_value(
                old(self)@,
                old(initial_state)@,
                r as int,
                new_v,
            ),
    {
        self.check_save_register(r, initial_state);
        let prior = self.saved_registers[r];
        self.saved_registers[r] = RegisterLocation { value: new_v, ..prior };
        proof {
            let (res, ini) = ps_set_register_value(
                old(self)@,
                old(initial_state)@,
                r as int,
                new_v,
            );
            assert(final(self)@ =~= res);
            assert(final(initial_state)@ =~= ini);
        }
    }

    /// Put register `r` back to the rule recorded in `initial_state`, if
    /// any instruction has changed it since the FDE's rules began.
    pub fn restore_register_to_initial_state(&mut self, r: usize, initial_state: &PrologInfo)
        requires
            r <= MAX_REGISTER_NUM,
        ensures
            final(self)@ == ps_restore(old(self)@, initial_state@, r as int),
    {
        if self.saved_registers[r].initial_state_saved {
            self.saved_registers[r] = initial_state.saved_registers[r];
        }
        // Else the register still holds its initial rule.
        proof {
            assert(final(self)@ =~= ps_restore(old(self)@, initial_state@, r as int));
        }
    }

    /// Record register `r`'s current rule in `initial_state`, once.
    fn check_save_register(&mut self, r: usize, initial_state: &mut PrologInfo)
        requires
            r <= MAX_REGISTER_NUM,
        ensures
            (final(self)@, final(initial_state)@) == ps_save(
                old(self)@,
                old(initial_state)@,
                r as int,
            ),
    {
        if !self.saved_registers[r].initial_state_saved {
            initial_state.saved_registers[r] = self.saved_registers[r];
            let prior = self.saved_registers[r];
            self.saved_registers[r] = RegisterLocation { initial_state_saved: true, ..prior };
        }
        proof {
            let (res, ini) = ps_save(old(self)@, old(initial_state)@, r as int);
            assert(final(self)@ =~= res);
            assert(final(initial_state)@ =~= ini);
        }
    }

    /// The canonical frame address the prolog info defines: a base register
    /// plus offset, or the value of a DWARF expression.
    pub fn cfa(&self, m: &Memory, registers: &Registers) -> (r: Result<u64, DwarfError>)
        ensures
            r == spec_cfa(self@, *m, *registers),
    {
        if self.cfa_register != 0 {
            if registers.valid_register(self.cfa_register as usize) {
                Ok(
                    ((registers.get(self.cfa_register as usize) as i64).wrapping_add(
                        self.cfa_register_offset as i64,
                    )) as u64,
                )
            } else {
                Err(DwarfError::InvalidCfaRegisterNumber(self.cfa_register as usize))
            }
        } else if self.cfa_expression != 0 {
            evaluate(m, registers, self.cfa_expression as u64, 0)
        } else {
            Err(DwarfError::NoWayToCalculateCfa)
        }
    }
}

/// The canonical frame address [`PrologInfo::cfa`] computes.
pub open spec fn spec_cfa(info: PrologSpec, m: Memory, regs: Registers) -> Result<u64, DwarfError> {
    if info.cfa_register != 0 {
        if spec_valid_register(regs.arch, info.cfa_register as usize) {
            Ok(
                ((regs.regs@[info.cfa_register as int] as i64).wrapping_add(
                    info.cfa_register_offset as i64,
                )) as u64,
            )
        } else {
            Err(DwarfError::InvalidCfaRegisterNumber(info.cfa_register as usize))
        }
    } else if info.cfa_expression != 0 {
        spec_evaluate(m, regs, info.cfa_expression as u64, 0)
    } else {
        Err(DwarfError::NoWayToCalculateCfa)
    }
}

/// The saved value of a general-purpose register under rule `loc`, given
/// the frame's CFA.
pub open spec fn spec_get_saved_register(
    m: Memory,
    regs: Registers,
    loc: RegisterLocation,
    cfa: u64,
) -> Result<u64, DwarfError> {
    match loc.location {
        RegisterSavedWhere::InCFA => {
            let addr = ((cfa as i64).wrapping_add(loc.value)) as u64;
            match m.u64_at(addr) {
                Option::Some(v) => Ok(v),
                Option::None => Err(DwarfError::UnreadableAddress(addr)),
            }
        },
        RegisterSavedWhere::OffsetFromCFA => Ok(((cfa as i64).wrapping_add(loc.value)) as u64),
        RegisterSavedWhere::AtExpression => {
            match spec_evaluate(m, regs, loc.value as u64, cfa) {
                Err(e) => Err(e),
                Ok(addr) => match m.u64_at(addr) {
                    Option::Some(v) => Ok(v),
                    Option::None => Err(DwarfError::UnreadableAddress(addr)),
                },
            }
        },
        RegisterSavedWhere::IsExpression => spec_evaluate(m, regs, loc.value as u64, cfa),
        RegisterSavedWhere::InRegister => {
            let reg = loc.value as usize;
            if spec_valid_register(regs.arch, reg) {
                Ok(regs.regs@[reg as int])
            } else {
                Err(DwarfError::InvalidRegisterNumber(reg))
            }
        },
        RegisterSavedWhere::Undefined => Ok(0),
        RegisterSavedWhere::Unused => Err(DwarfError::InvalidRegisterLocation),
    }
}

/// Recover a general-purpose register's saved value under rule `loc`.
/// `InRegister` reads the named source register of the current snapshot.
pub fn get_saved_register(
    m: &Memory,
    registers: &Registers,
    loc: RegisterLocation,
    cfa: u64,
) -> (r: Result<u64, DwarfError>)
    ensures
        r == spec_get_saved_register(*m, *registers, loc, cfa),
{
    match loc.location {
        RegisterSavedWhere::InCFA => m.read_u64(((cfa as i64).wrapping_add(loc.value)) as u64),
        RegisterSavedWhere::OffsetFromCFA => Ok(((cfa as i64).wrapping_add(loc.value)) as u64),
        RegisterSavedWhere::AtExpression => {
            match evaluate(m, registers, loc.value as u64, cfa) {
                Err(e) => Err(e),
                Ok(addr) => m.read_u64(addr),
            }
        },
        RegisterSavedWhere::IsExpression => evaluate(m, registers, loc.value as u64, cfa),
        RegisterSavedWhere::InRegister => {
            let reg = loc.value as usize;
            if registers.valid_register(reg) {
                Ok(registers.get(reg))
            } else {
                Err(DwarfError::InvalidRegisterNumber(reg))
            }
        },
        RegisterSavedWhere::Undefined => Ok(0),
        RegisterSavedWhere::Unused => Err(DwarfError::InvalidRegisterLocation),
    }
}

/// The saved bit pattern of a floating-point register under rule `loc`.
pub open spec fn spec_get_saved_float_register(
    m: Memory,
    regs: Registers,
    loc: RegisterLocation,
    cfa: u64,
) -> Result<u64, DwarfError> {
    match loc.location {
        RegisterSavedWhere::InCFA => {
            let addr = ((cfa as i64).wrapping_add(loc.value)) as u64;
            match m.u64_at(addr) {
                Option::Some(v) => Ok(v),
                Option::None => Err(DwarfError::UnreadableAddress(addr)),
            }
        },
        RegisterSavedWhere::AtExpression => {
            match spec_evaluate(m, regs, loc.value as u64, cfa) {
                Err(e) => Err(e),
                Ok(addr) => match m.u64_at(addr) {
                    Option::Some(v) => Ok(v),
                    Option::None => Err(DwarfError::UnreadableAddress(addr)),
                },
            }
        },
        _ => Err(DwarfError::InvalidRegisterLocation),
    }
}

/// Recover a floating-point register's saved bit pattern under rule `loc`.
pub fn get_saved_float_register(
    m: &Memory,
    registers: &Registers,
    loc: RegisterLocation,
    cfa: u64,
) -> (r: Result<u64, DwarfError>)
    ensures
        r == spec_get_saved_float_register(*m, *registers, loc, cfa),
{
    match loc.location {
        RegisterSavedWhere::InCFA => m.read_u64(((cfa as i64).wrapping_add(loc.value)) as u64),
        RegisterSavedWhere::AtExpression => {
            match evaluate(m, registers, loc.value as u64, cfa) {
                Err(e) => Err(e),
                Ok(addr) => m.read_u64(addr),
            }
        },
        _ => Err(DwarfError::InvalidRegisterLocation),
    }
}

/// The interpreter's state between instructions: the accumulating prolog
/// info, the shadow initial state, the remembered-state stack, the PC
/// offset described so far, and the cursor into the instruction bytes.
#[verifier::ext_equal]
pub struct CfiMachine {
    pub result: PrologSpec,
    pub initial: PrologSpec,
    pub remembered: Seq<PrologSpec>,
    pub code_offset: u64,
    pub loc: u64,
}

/// The views of a stack of remembered prolog infos.
pub open spec fn prolog_views(s: Seq<PrologInfo>) -> Seq<PrologSpec> {
    s.map_values(|p: PrologInfo| p@)
}

/// The effect of the CFI instruction at `st.loc` on the machine.
#[verifier::opaque]
pub open spec fn spec_run_step(
    m: Memory,
    arch: Arch,
    cie: CommonInformationEntry,
    end: u64,
    st: CfiMachine,
) -> Result<CfiMachine, DwarfError> {
    match m.byte_at(st.loc) {
        Option::None => Err(DwarfError::UnreadableAddress(st.loc)),
        Option::Some(opcode) => {
            let loc = st.loc.wrapping_add(1);
            if opcode == DW_CFA_NOP {
                Ok((CfiMachine { loc, ..st }))
            } else if opcode == DW_CFA_SET_LOC {
                match spec_pointer(m, loc, end, cie.pointer_encoding, 0) {
                    Err(e) => Err(e),
                    Ok((v, loc2)) => Ok((CfiMachine { code_offset: v, loc: loc2, ..st })),
                }
            } else if opcode == DW_CFA_ADVANCE_LOC1 {
                match m.byte_at(loc) {
                    Option::None => Err(DwarfError::UnreadableAddress(loc)),
                    Option::Some(d) => Ok(
                        (CfiMachine {
                            code_offset: st.code_offset.wrapping_add(
                                (d as u64).wrapping_mul(cie.code_align_factor as u64),
                            ),
                            loc: loc.wrapping_add(1),
                            ..st
                        }),
                    ),
                }
            } else if opcode == DW_CFA_ADVANCE_LOC2 {
                match m.u16_at(loc) {
                    Option::None => Err(DwarfError::UnreadableAddress(loc)),
                    Option::Some(d) => Ok(
                        (CfiMachine {
                            code_offset: st.code_offset.wrapping_add(
                                (d as u64).wrapping_mul(cie.code_align_factor as u64),
                            ),
                            loc: loc.wrapping_add(2),
                            ..st
                        }),
                    ),
                }
            } else if opcode == DW_CFA_ADVANCE_LOC4 {
                match m.u32_at(loc) {
                    Option::None => Err(DwarfError::UnreadableAddress(loc)),
                    Option::Some(d) => Ok(
                        (CfiMachine {
                            code_offset: st.code_offset.wrapping_add(
                                (d as u64).wrapping_mul(cie.code_align_factor as u64),
                            ),
                            loc: loc.wrapping_add(4),
                            ..st
                        }),
                    ),
                }
            } else if opcode == DW_CFA_OFFSET_EXTENDED {
                match spec_uleb128(m, loc, end) {
                    Err(e) => Err(e),
                    Ok((rv, loc2)) => {
                        let r = rv as usize;
                        if r > MAX_REGISTER_NUM {
                            Err(DwarfError::InvalidRegisterNumber(r))
                        } else {
                            match spec_uleb128(m, loc2, end) {
                                Err(e) => Err(e),
                                Ok((ov, loc3)) => {
                                    let offset = (ov as i64).wrapping_mul(
                                        cie.data_align_factor as i64,
                                    );
                                    let (res, ini) = ps_set_register(
                                        st.result,
                                        st.initial,
                                        r as int,
                                        RegisterSavedWhere::InCFA,
                                        offset,
                                    );
                                    Ok(
                                        (CfiMachine { result: res, initial: ini, loc: loc3, ..st }),
                                    )
                                },
                            }
                        }
                    },
                }
            } else if opcode == DW_CFA_RESTORE_EXTENDED {
                match spec_uleb128(m, loc, end) {
                    Err(e) => Err(e),
                    Ok((rv, loc2)) => {
                        let r = rv as usize;
                        if r > MAX_REGISTER_NUM {
                            Err(DwarfError::InvalidRegisterNumber(r))
                        } else {
                            Ok(
                                (CfiMachine {
                                    result: ps_restore(st.result, st.initial, r as int),
                                    loc: loc2,
                                    ..st
                                }),
                            )
                        }
                    },
                }
            } else if opcode == DW_CFA_UNDEFINED || opcode == DW_CFA_SAME_VALUE {
                match spec_uleb128(m, loc, end) {
                    Err(e) => Err(e),
                    Ok((rv, loc2)) => {
                        let r = rv as usize;
                        if r > MAX_REGISTER_NUM {
                            Err(DwarfError::InvalidRegisterNumber(r))
                        } else {
                            // "Same value" is modeled as untouched: the step
                            // driver leaves unlisted registers alone, which
                            // merges the two cases correctly.
                            let rule = if opcode == DW_CFA_UNDEFINED {
                                RegisterSavedWhere::Undefined
                            } else {
                                RegisterSavedWhere::Unused
                            };
                            let (res, ini) = ps_set_register_location(
                                st.result,
                                st.initial,
                                r as int,
                                rule,
                            );
                            Ok((CfiMachine { result: res, initial: ini, loc: loc2, ..st }))
                        }
                    },
                }
            } else if opcode == DW_CFA_REGISTER {
                match spec_uleb128(m, loc, end) {
                    Err(e) => Err(e),
                    Ok((rv1, loc2)) => {
                        let r1 = rv1 as usize;
                        if r1 > MAX_REGISTER_NUM {
                            Err(DwarfError::InvalidRegisterNumber(r1))
                        } else {
                            match spec_uleb128(m, loc2, end) {
                                Err(e) => Err(e),
                                Ok((rv2, loc3)) => {
                                    let r2 = rv2 as usize;
                                    if r2 > MAX_REGISTER_NUM {
                                        Err(DwarfError::InvalidRegisterNumber(r2))
                                    } else {
                                        let (res, ini) = ps_set_register(
                                            st.result,
                                            st.initial,
                                            r1 as int,
                                            RegisterSavedWhere::InRegister,
                                            r2 as i64,
                                        );
                                        Ok(
                                            (CfiMachine {
                                                result: res,
                                                initial: ini,
                                                loc: loc3,
                                                ..st
                                            }),
                                        )
                                    }
                                },
                            }
                        }
                    },
                }
            } else if opcode == DW_CFA_REMEMBER_STATE {
                Ok((CfiMachine { remembered: st.remembered.push(st.result), loc, ..st }))
            } else if opcode == DW_CFA_RESTORE_STATE {
                if st.remembered.len() == 0 {
                    Err(DwarfError::NoRememberState)
                } else {
                    Ok(
                        (CfiMachine {
                            result: st.remembered.last(),
                            remembered: st.remembered.drop_last(),
                            loc,
                            ..st
                        }),
                    )
                }
            } else if opcode == DW_CFA_DEF_CFA {
                match spec_uleb128(m, loc, end) {
                    Err(e) => Err(e),
                    Ok((rv, loc2)) => {
                        let r = rv as usize;
                        if r > MAX_REGISTER_NUM {
                            Err(DwarfError::InvalidRegisterNumber(r))
                        } else {
                            match spec_uleb128(m, loc2, end) {
                                Err(e) => Err(e),
                                Ok((ov, loc3)) => Ok(
                                    (CfiMachine {
                                        result: (PrologSpec {
                                            cfa_register: r as u32,
                                            cfa_register_offset: ov as i32,
                                            ..st.result
                                        }),
                                        loc: loc3,
                                        ..st
                                    }),
                                ),
                            }
                        }
                    },
                }
            } else if opcode == DW_CFA_DEF_CFA_REGISTER {
                match spec_uleb128(m, loc, end) {
                    Err(e) => Err(e),
                    Ok((rv, loc2)) => {
                        let r = rv as usize;
                        if r > MAX_REGISTER_NUM {
                            Err(DwarfError::InvalidRegisterNumber(r))
                        } else {
                            Ok(
                                (CfiMachine {
                                    result: (PrologSpec { cfa_register: r as u32, ..st.result }),
                                    loc: loc2,
                                    ..st
                                }),
                            )
                        }
                    },
                }
            } else if opcode == DW_CFA_DEF_CFA_OFFSET {
                match spec_uleb128(m, loc, end) {
                    Err(e) => Err(e),
                    Ok((ov, loc2)) => Ok(
                        (CfiMachine {
                            result: (PrologSpec {
                                cfa_register_offset: ov as i32,
                                ..st.result
                            }),
                            loc: loc2,
                            ..st
                        }),
                    ),
                }
            } else if opcode == DW_CFA_DEF_CFA_EXPRESSION {
                match spec_uleb128(m, loc, end) {
                    Err(e) => Err(e),
                    Ok((len, loc2)) => Ok(
                        (CfiMachine {
                            result: (PrologSpec {
                                cfa_register: 0,
                                cfa_expression: loc as i64,
                                ..st.result
                            }),
                            loc: loc2.wrapping_add(len),
                            ..st
                        }),
                    ),
                }
            } else if opcode == DW_CFA_EXPRESSION || opcode == DW_CFA_VAL_EXPRESSION {
                match spec_uleb128(m, loc, end) {
                    Err(e) => Err(e),
                    Ok((rv, loc2)) => {
                        let r = rv as usize;
                        if r > MAX_REGISTER_NUM {
                            Err(DwarfError::InvalidRegisterNumber(r))
                        } else {
                            match spec_uleb128(m, loc2, end) {
                                Err(e) => Err(e),
                                Ok((len, loc3)) => {
                                    let rule = if opcode == DW_CFA_EXPRESSION {
                                        RegisterSavedWhere::AtExpression
                                    } else {
                                        RegisterSavedWhere::IsExpression
                                    };
                                    let (res, ini) = ps_set_register(
                                        st.result,
                                        st.initial,
                                        r as int,
                                        rule,
                                        loc2 as i64,
                                    );
                                    Ok(
                                        (CfiMachine {
                                            result: res,
                                            initial: ini,
                                            loc: loc3.wrapping_add(len),
                                            ..st
                                        }),
                                    )
                                },
                            }
                        }
                    },
                }
            } else if opcode == DW_CFA_OFFSET_EXTENDED_SF {
                match spec_uleb128(m, loc, end) {
                    Err(e) => Err(e),
                    Ok((rv, loc2)) => {
                        let r = rv as usize;
                        if r > MAX_REGISTER_NUM {
                            Err(DwarfError::InvalidRegisterNumber(r))
                        } else {
                            match spec_sleb128(m, loc2, end) {
                                Err(e) => Err(e),
                                Ok((ov, loc3)) => {
                                    let offset = ov.wrapping_mul(cie.data_align_factor as i64);
                                    let (res, ini) = ps_set_register(
                                        st.result,
                                        st.initial,
                                        r as int,
                                        RegisterSavedWhere::InCFA,
                                        offset,
                                    );
                                    Ok(
                                        (CfiMachine { result: res, initial: ini, loc: loc3, ..st }),
                                    )
                                },
                            }
                        }
                    },
                }
            } else if opcode == DW_CFA_DEF_CFA_SF {
                match spec_uleb128(m, loc, end) {
                    Err(e) => Err(e),
                    Ok((rv, loc2)) => {
                        let r = rv as usize;
                        if r > MAX_REGISTER_NUM {
                            Err(DwarfError::InvalidRegisterNumber(r))
                        } else {
                            match spec_sleb128(m, loc2, end) {
                                Err(e) => Err(e),
                                Ok((ov, loc3)) => Ok(
                                    (CfiMachine {
                                        result: (PrologSpec {
                                            cfa_register: r as u32,
                                            cfa_register_offset: ov.wrapping_mul(
                                                cie.data_align_factor as i64,
                                            ) as i32,
                                            ..st.result
                                        }),
                                        loc: loc3,
                                        ..st
                                    }),
                                ),
                            }
                        }
                    },
                }
            } else if opcode == DW_CFA_DEF_CFA_OFFSET_SF {
                match spec_sleb128(m, loc, end) {
                    Err(e) => Err(e),
                    Ok((ov, loc2)) => Ok(
                        (CfiMachine {
                            result: (PrologSpec {
                                cfa_register_offset: ov.wrapping_mul(
                                    cie.data_align_factor as i64,
                                ) as i32,
                                ..st.result
                            }),
                            loc: loc2,
                            ..st
                        }),
                    ),
                }
            } else if opcode == DW_CFA_VAL_OFFSET {
                match spec_uleb128(m, loc, end) {
                    Err(e) => Err(e),
                    Ok((rv, loc2)) => {
                        let r = rv as usize;
                        if r > MAX_REGISTER_NUM {
                            Err(DwarfError::InvalidRegisterNumber(r))
                        } else {
                            match spec_uleb128(m, loc2, end) {
                                Err(e) => Err(e),
                                Ok((ov, loc3)) => {
                                    let offset = (ov as i64).wrapping_mul(
                                        cie.data_align_factor as i64,
                                    );
                                    let (res, ini) = ps_set_register(
                                        st.result,
                                        st.initial,
                                        r as int,
                                        RegisterSavedWhere::OffsetFromCFA,
                                        offset,
                                    );
                                    Ok(
                                        (CfiMachine { result: res, initial: ini, loc: loc3, ..st }),
                                    )
                                },
                            }
                        }
                    },
                }
            } else if opcode == DW_CFA_VAL_OFFSET_SF {
                match spec_uleb128(m, loc, end) {
                    Err(e) => Err(e),
                    Ok((rv, loc2)) => {
                        let r = rv as usize;
                        if r > MAX_REGISTER_NUM {
                            Err(DwarfError::InvalidRegisterNumber(r))
                        } else {
                            match spec_sleb128(m, loc2, end) {
                                Err(e) => Err(e),
                                Ok((ov, loc3)) => {
                                    let offset = ov.wrapping_mul(cie.data_align_factor as i64);
                                    let (res, ini) = ps_set_register(
                                        st.result,
                                        st.initial,
                                        r as int,
                                        RegisterSavedWhere::OffsetFromCFA,
                                        offset,
                                    );
                                    Ok(
                                        (CfiMachine { result: res, initial: ini, loc: loc3, ..st }),
                                    )
                                },
                            }
                        }
                    },
                }
            } else if opcode == DW_CFA_GNU_ARGS_SIZE {
                match spec_uleb128(m, loc, end) {
                    Err(e) => Err(e),
                    Ok((v, loc2)) => Ok(
                        (CfiMachine {
                            result: (PrologSpec { sp_extra_arg_size: v as u32, ..st.result }),
                            loc: loc2,
                            ..st
                        }),
                    ),
                }
            } else if opcode == DW_CFA_GNU_NEGATIVE_OFFSET_EXTENDED {
                match spec_uleb128(m, loc, end) {
                    Err(e) => Err(e),
                    Ok((rv, loc2)) => {
                        let r = rv as usize;
                        if r > MAX_REGISTER_NUM {
                            Err(DwarfError::InvalidRegisterNumber(r))
                        } else {
                            match spec_uleb128(m, loc2, end) {
                                Err(e) => Err(e),
                                Ok((ov, loc3)) => {
                                    let offset = (ov as i64).wrapping_mul(
                                        cie.data_align_factor as i64,
                                    );
                                    let (res, ini) = ps_set_register(
                                        st.result,
                                        st.initial,
                                        r as int,
                                        RegisterSavedWhere::InCFA,
                                        0i64.wrapping_sub(offset),
                                    );
                                    Ok(
                                        (CfiMachine { result: res, initial: ini, loc: loc3, ..st }),
                                    )
                                },
                            }
                        }
                    },
                }
            } else if opcode == DW_CFA_AARCH64_NEGATE_RA_STATE && arch == Arch::Aarch64 {
                // This opcode number belongs to the aarch64 return-address
                // signing extension only on that architecture.
                let value = st.result.saved[UNW_ARM64_RA_SIGN_STATE as int].value ^ 1;
                let (res, ini) = ps_set_register_value(
                    st.result,
                    st.initial,
                    UNW_ARM64_RA_SIGN_STATE as int,
                    value,
                );
                Ok((CfiMachine { result: res, initial: ini, loc, ..st }))
            } else {
                let operand = (opcode & 0x3f) as usize;
                let high = (opcode & 0xc0) as u8;
                if high == DW_CFA_OFFSET {
                    match spec_uleb128(m, loc, end) {
                        Err(e) => Err(e),
                        Ok((ov, loc2)) => {
                            let offset = (ov as i64).wrapping_mul(cie.data_align_factor as i64);
                            let (res, ini) = ps_set_register(
                                st.result,
                                st.initial,
                                operand as int,
                                RegisterSavedWhere::InCFA,
                                offset,
                            );
                            Ok((CfiMachine { result: res, initial: ini, loc: loc2, ..st }))
                        },
                    }
                } else if high == DW_CFA_ADVANCE_LOC {
                    Ok(
                        (CfiMachine {
                            code_offset: st.code_offset.wrapping_add(
                                (operand as u64).wrapping_mul(cie.code_align_factor as u64),
                            ),
                            loc,
                            ..st
                        }),
                    )
                } else if high == DW_CFA_RESTORE {
                    Ok(
                        (CfiMachine {
                            result: ps_restore(st.result, st.initial, operand as int),
                            loc,
                            ..st
                        }),
                    )
                } else {
                    Err(DwarfError::InvalidInstruction(high))
                }
            }
        },
    }
}

/// Run the machine until the cursor reaches `end`, the described PC offset
/// reaches `pc_offset`, or the byte budget runs out.
pub open spec fn spec_run_rec(
    m: Memory,
    arch: Arch,
    cie: CommonInformationEntry,
    end: u64,
    pc_offset: u64,
    st: CfiMachine,
    fuel: nat,
) -> Result<CfiMachine, DwarfError>
    decreases fuel,
{
    if st.loc >= end || st.code_offset >= pc_offset || fuel == 0 {
        Ok(st)
    } else {
        match spec_run_step(m, arch, cie, end, st) {
            Err(e) => Err(e),
            Ok(st2) => spec_run_rec(m, arch, cie, end, pc_offset, st2, (fuel - 1) as nat),
        }
    }
}

/// What one interpreter phase (the CIE's initial instructions, or the
/// FDE's instructions up to the target PC offset) turns `init` into.
pub open spec fn spec_run_phase(
    m: Memory,
    arch: Arch,
    cie: CommonInformationEntry,
    start: u64,
    end: u64,
    pc_offset: u64,
    init: PrologSpec,
) -> Result<PrologSpec, DwarfError> {
    let fuel = if start <= end {
        (end - start) as nat
    } else {
        0
    };
    let st0 = CfiMachine {
        result: init,
        initial: ps_default(),
        remembered: Seq::empty(),
        code_offset: 0,
        loc: start,
    };
    match spec_run_rec(m, arch, cie, end, pc_offset, st0, fuel) {
        Err(e) => Err(e),
        Ok(st) => Ok(st.result),
    }
}

/// The prolog info [`run`] produces: the CIE's initial instructions run in
/// full, then the FDE's instructions up to the offset of `pc` within the
/// FDE's range.
#[verifier::opaque]
pub open spec fn spec_run(
    m: Memory,
    arch: Arch,
    pc: u64,
    fde: FrameDescriptionEntry,
    cie: CommonInformationEntry,
) -> Result<PrologSpec, DwarfError> {
    match spec_run_phase(
        m,
        arch,
        cie,
        cie.cie_instructions,
        cie.cie_start.wrapping_add(cie.cie_length),
        u64::MAX,
        ps_default(),
    ) {
        Err(e) => Err(e),
        Ok(after_cie) => spec_run_phase(
            m,
            arch,
            cie,
            fde.fde_instructions,
            fde.fde_start.wrapping_add(fde.fde_length),
            pc.wrapping_sub(fde.pc_start),
            after_cie,
        ),
    }
}

/// Execute one CFI instruction at `loc`, updating the interpreter state.
#[verifier::rlimit(100)]
fn run_step(
    m: &Memory,
    arch: Arch,
    cie: &CommonInformationEntry,
    end: u64,
    result: &mut PrologInfo,
    initial_state: &mut PrologInfo,
    remember_stack: &mut Vec<PrologInfo>,
    code_offset: &mut u64,
    loc: &mut u64,
) -> (r: Result<(), DwarfError>)
    ensures
        match r {
            Ok(_) => spec_run_step(
                *m,
                arch,
                *cie,
                end,
                (CfiMachine {
                    result: old(result)@,
                    initial: old(initial_state)@,
                    remembered: prolog_views(old(remember_stack)@),
                    code_offset: *old(code_offset),
                    loc: *old(loc),
                }),
            ) == Ok::<CfiMachine, DwarfError>(
                CfiMachine {
                    result: final(result)@,
                    initial: final(initial_state)@,
                    remembered: prolog_views(final(remember_stack)@),
                    code_offset: *final(code_offset),
                    loc: *final(loc),
                },
            ),
            Err(e) => spec_run_step(
                *m,
                arch,
                *cie,
                end,
                (CfiMachine {
                    result: old(result)@,
                    initial: old(initial_state)@,
                    remembered: prolog_views(old(remember_stack)@),
                    code_offset: *old(code_offset),
                    loc: *old(loc),
                }),
            ) == Err::<CfiMachine, DwarfError>(e),
        },
{
    proof {
        reveal(spec_run_step);
    }
    let opcode = match m.read_u8(*loc) {
        Ok(v) => v,
        Err(e) => return Err(e),
    };
    *loc = loc.wrapping_add(1);
    if opcode == DW_CFA_NOP {
        Ok(())
    } else if opcode == DW_CFA_SET_LOC {
        let v = match decode_pointer(m, loc, end, cie.pointer_encoding, 0) {
            Ok(v) => v,
            Err(e) => return Err(e),
        };
        *code_offset = v;
        Ok(())
    } else if opcode == DW_CFA_ADVANCE_LOC1 {
        let d = match m.read_u8(*loc) {
            Ok(v) => v,
            Err(e) => return Err(e),
        };
        *code_offset = code_offset.wrapping_add(
            (d as u64).wrapping_mul(cie.code_align_factor as u64),
        );
        *loc = loc.wrapping_add(1);
        Ok(())
    } else if opcode == DW_CFA_ADVANCE_LOC2 {
        let d = match m.read_u16(*loc) {
            Ok(v) => v,
            Err(e) => return Err(e),
        };
        *code_offset = code_offset.wrapping_add(
            (d as u64).wrapping_mul(cie.code_align_factor as u64),
        );
        *loc = loc.wrapping_add(2);
        Ok(())
    } else if opcode == DW_CFA_ADVANCE_LOC4 {
        let d = match m.read_u32(*loc) {
            Ok(v) => v,
            Err(e) => return Err(e),
        };
        *code_offset = code_offset.wrapping_add(
            (d as u64).wrapping_mul(cie.code_align_factor as u64),
        );
        *loc = loc.wrapping_add(4);
        Ok(())
    } else if opcode == DW_CFA_OFFSET_EXTENDED {
        let rv = match decode_uleb128(m, loc, end) {
            Ok(v) => v,
            Err(e) => return Err(e),
        };
        let r = rv as usize;
        if r > MAX_REGISTER_NUM {
            return Err(DwarfError::InvalidRegisterNumber(r));
        }
        let ov = match decode_uleb128(m, loc, end) {
            Ok(v) => v,
            Err(e) => return Err(e),
        };
        let offset = (ov as i64).wrapping_mul(cie.data_align_factor as i64);
        result.set_register(r, RegisterSavedWhere::InCFA, offset, initial_state);
        Ok(())
    } else if opcode == DW_CFA_RESTORE_EXTENDED {
        let rv = match decode_uleb128(m, loc, end) {
            Ok(v) => v,
            Err(e) => return Err(e),
        };
        let r = rv as usize;
        if r > MAX_REGISTER_NUM {
            return Err(DwarfError::InvalidRegisterNumber(r));
        }
        result.restore_register_to_initial_state(r, initial_state);
        Ok(())
    } else if opcode == DW_CFA_UNDEFINED || opcode == DW_CFA_SAME_VALUE {
        let rv = match decode_uleb128(m, loc, end) {
            Ok(v) => v,
            Err(e) => return Err(e),
        };
        let r = rv as usize;
        if r > MAX_REGISTER_NUM {
            return Err(DwarfError::InvalidRegisterNumber(r));
        }
        let rule = if opcode == DW_CFA_UNDEFINED {
            RegisterSavedWhere::Undefined
        } else {
            RegisterSavedWhere::Unused
        };
        result.set_register_location(r, rule, initial_state);
        Ok(())
    } else if opcode == DW_CFA_REGISTER {
        let rv1 = match decode_uleb128(m, loc, end) {
            Ok(v) => v,
            Err(e) => return Err(e),
        };
        let r1 = rv1 as usize;
        if r1 > MAX_REGISTER_NUM {
            return Err(DwarfError::InvalidRegisterNumber(r1));
        }
        let rv2 = match decode_uleb128(m, loc, end) {
            Ok(v) => v,
            Err(e) => return Err(e),
        };
        let r2 = rv2 as usize;
        if r2 > MAX_REGISTER_NUM {
            return Err(DwarfError::InvalidRegisterNumber(r2));
        }
        result.set_register(r1, RegisterSavedWhere::InRegister, r2 as i64, initial_state);
        Ok(())
    } else if opcode == DW_CFA_REMEMBER_STATE {
        remember_stack.push(*result);
        proof {
            assert(prolog_views(final(remember_stack)@) =~= prolog_views(
                old(remember_stack)@,
            ).push(old(result)@));
        }
        Ok(())
    } else if opcode == DW_CFA_RESTORE_STATE {
        if remember_stack.len() == 0 {
            return Err(DwarfError::NoRememberState);
        }
        let top = match remember_stack.pop() {
            Some(v) => v,
            None => {
                return Err(DwarfError::NoRememberState);
            },
        };
        *result = top;
        proof {
            assert(prolog_views(final(remember_stack)@) =~= prolog_views(
                old(remember_stack)@,
            ).drop_last());
            assert(final(result)@ == prolog_views(old(remember_stack)@).last());
        }
        Ok(())
    } else if opcode == DW_CFA_DEF_CFA {
        let rv = match decode_uleb128(m, loc, end) {
            Ok(v) => v,
            Err(e) => return Err(e),
        };
        let r = rv as usize;
        if r > MAX_REGISTER_NUM {
            return Err(DwarfError::InvalidRegisterNumber(r));
        }
        let ov = match decode_uleb128(m, loc, end) {
            Ok(v) => v,
            Err(e) => return Err(e),
        };
        result.cfa_register = r as u32;
        result.cfa_register_offset = ov as i32;
        Ok(())
    } else if opcode == DW_CFA_DEF_CFA_REGISTER {
        let rv = match decode_uleb128(m, loc, end) {
            Ok(v) => v,
            Err(e) => return Err(e),
        };
        let r = rv as usize;
        if r > MAX_REGISTER_NUM {
            return Err(DwarfError::InvalidRegisterNumber(r));
        }
        result.cfa_register = r as u32;
        Ok(())
    } else if opcode == DW_CFA_DEF_CFA_OFFSET {
        let ov = match decode_uleb128(m, loc, end) {
            Ok(v) => v,
            Err(e) => return Err(e),
        };
        result.cfa_register_offset = ov as i32;
        Ok(())
    } else if opcode == DW_CFA_DEF_CFA_EXPRESSION {
        result.cfa_register = 0;
        result.cfa_expression = *loc as i64;
        let len = match decode_uleb128(m, loc, end) {
            Ok(v) => v,
            Err(e) => return Err(e),
        };
        *loc = loc.wrapping_add(len);
        Ok(())
    } else if opcode == DW_CFA_EXPRESSION || opcode == DW_CFA_VAL_EXPRESSION {
        let rv = match decode_uleb128(m, loc, end) {
            Ok(v) => v,
            Err(e) => return Err(e),
        };
        let r = rv as usize;
        if r > MAX_REGISTER_NUM {
            return Err(DwarfError::InvalidRegisterNumber(r));
        }
        let rule = if opcode == DW_CFA_EXPRESSION {
            RegisterSavedWhere::AtExpression
        } else {
            RegisterSavedWhere::IsExpression
        };
        let expr_loc = *loc;
        result.set_register(r, rule, expr_loc as i64, initial_state);
        let len = match decode_uleb128(m, loc, end) {
            Ok(v) => v,
            Err(e) => return Err(e),
        };
        *loc = loc.wrapping_add(len);
        Ok(())
    } else if opcode == DW_CFA_OFFSET_EXTENDED_SF {
        let rv = match decode_uleb128(m, loc, end) {
            Ok(v) => v,
            Err(e) => return Err(e),
        };
        let r = rv as usize;
        if r > MAX_REGISTER_NUM {
            return Err(DwarfError::InvalidRegisterNumber(r));
        }
        let ov = match decode_sleb128(m, loc, end) {
            Ok(v) => v,
            Err(e) => return Err(e),
        };
        let offset = ov.wrapping_mul(cie.data_align_factor as i64);
        result.set_register(r, RegisterSavedWhere::InCFA, offset, initial_state);
        Ok(())
    } else if opcode == DW_CFA_DEF_CFA_SF {
        let rv = match decode_uleb128(m, loc, end) {
            Ok(v) => v,
            Err(e) => return Err(e),
        };
        let r = rv as usize;
        if r > MAX_REGISTER_NUM {
            return Err(DwarfError::InvalidRegisterNumber(r));
        }
        let ov = match decode_sleb128(m, loc, end) {
            Ok(v) => v,
            Err(e) => return Err(e),
        };
        result.cfa_register = r as u32;
        result.cfa_register_offset = ov.wrapping_mul(cie.data_align_factor as i64) as i32;
        Ok(())
    } else if opcode == DW_CFA_DEF_CFA_OFFSET_SF {
        let ov = match decode_sleb128(m, loc, end) {
            Ok(v) => v,
            Err(e) => return Err(e),
        };
        result.cfa_register_offset = ov.wrapping_mul(cie.data_align_factor as i64) as i32;
        Ok(())
    } else if opcode == DW_CFA_VAL_OFFSET {
        let rv = match decode_uleb128(m, loc, end) {
            Ok(v) => v,
            Err(e) => return Err(e),
        };
        let r = rv as usize;
        if r > MAX_REGISTER_NUM {
            return Err(DwarfError::InvalidRegisterNumber(r));
        }
        let ov = match decode_uleb128(m, loc, end) {
            Ok(v) => v,
            Err(e) => return Err(e),
        };
        let offset = (ov as i64).wrapping_mul(cie.data_align_factor as i64);
        result.set_register(r, RegisterSavedWhere::OffsetFromCFA, offset, initial_state);
        Ok(())
    } else if opcode == DW_CFA_VAL_OFFSET_SF {
        let rv = match decode_uleb128(m, loc, end) {
            Ok(v) => v,
            Err(e) => return Err(e),
        };
        let r = rv as usize;
        if r > MAX_REGISTER_NUM {
            return Err(DwarfError::InvalidRegisterNumber(r));
        }
        let ov = match decode_sleb128(m, loc, end) {
            Ok(v) => v,
            Err(e) => return Err(e),
        };
        let offset = ov.wrapping_mul(cie.data_align_factor as i64);
        result.set_register(r, RegisterSavedWhere::OffsetFromCFA, offset, initial_state);
        Ok(())
    } else if opcode == DW_CFA_GNU_ARGS_SIZE {
        let v = match decode_uleb128(m, loc, end) {
            Ok(v) => v,
            Err(e) => return Err(e),
        };
        result.sp_extra_arg_size = v as u32;
        Ok(())
    } else if opcode == DW_CFA_GNU_NEGATIVE_OFFSET_EXTENDED {
        let rv = match decode_uleb128(m, loc, end) {
            Ok(v) => v,
            Err(e) => return Err(e),
        };
        let r = rv as usize;
        if r > MAX_REGISTER_NUM {
            return Err(DwarfError::InvalidRegisterNumber(r));
        }
        let ov = match decode_uleb128(m, loc, end) {
            Ok(v) => v,
            Err(e) => return Err(e),
        };
        let offset = (ov as i64).wrapping_mul(cie.data_align_factor as i64);
        result.set_register(
            r,
            RegisterSavedWhere::InCFA,
            0i64.wrapping_sub(offset),
            initial_state,
        );
        Ok(())
    } else if opcode == DW_CFA_AARCH64_NEGATE_RA_STATE && matches!(arch, Arch::Aarch64) {
        let value = result.saved_registers[UNW_ARM64_RA_SIGN_STATE].value ^ 1;
        result.set_register_value(UNW_ARM64_RA_SIGN_STATE, value, initial_state);
        Ok(())
    } else {
        let operand = (opcode & 0x3f) as usize;
        let high = opcode & 0xc0;
        if high == DW_CFA_OFFSET {
            let ov = match decode_uleb128(m, loc, end) {
                Ok(v) => v,
                Err(e) => return Err(e),
            };
            let offset = (ov as i64).wrapping_mul(cie.data_align_factor as i64);
            result.set_register(operand, RegisterSavedWhere::InCFA, offset, initial_state);
            Ok(())
        } else if high == DW_CFA_ADVANCE_LOC {
            *code_offset = code_offset.wrapping_add(
                (operand as u64).wrapping_mul(cie.code_align_factor as u64),
            );
            Ok(())
        } else if high == DW_CFA_RESTORE {
            result.restore_register_to_initial_state(operand, initial_state);
            Ok(())
        } else {
            Err(DwarfError::InvalidInstruction(high))
        }
    }
}

/// One interpreter phase: run the instructions in `[start, end)` until the
/// described PC offset reaches `pc_offset`, mutating `result`.
fn run_phase(
    m: &Memory,
    arch: Arch,
    cie: &CommonInformationEntry,
    result: &mut PrologInfo,
    start: u64,
    end: u64,
    pc_offset: u64,
) -> (r: Result<(), DwarfError>)
    ensures
        match r {
            Ok(_) => spec_run_phase(*m, arch, *cie, start, end, pc_offset, old(result)@) == Ok::<
                PrologSpec,
                DwarfError,
            >(final(result)@),
            Err(e) => spec_run_phase(*m, arch, *cie, start, end, pc_offset, old(result)@) == Err::<
                PrologSpec,
                DwarfError,
            >(e),
        },
{
    let mut initial_state = PrologInfo::default();
    let mut remember_stack: Vec<PrologInfo> = Vec::new();
    let mut code_offset: u64 = 0;
    let mut loc = start;
    let mut fuel: u64 = if start <= end {
        end - start
    } else {
        0
    };
    let ghost fuel0: u64 = fuel;
    proof {
        assert(prolog_views(remember_stack@) =~= Seq::<PrologSpec>::empty());
        assert(initial_state@ =~= ps_default());
    }
    while loc < end && code_offset < pc_offset
        invariant
            fuel <= fuel0,
            fuel0 == (if start <= end {
                end - start
            } else {
                0
            }),
            spec_run_rec(
                *m,
                arch,
                *cie,
                end,
                pc_offset,
                (CfiMachine {
                    result: result@,
                    initial: initial_state@,
                    remembered: prolog_views(remember_stack@),
                    code_offset,
                    loc,
                }),
                fuel as nat,
            ) == spec_run_rec(
                *m,
                arch,
                *cie,
                end,
                pc_offset,
                (CfiMachine {
                    result: old(result)@,
                    initial: ps_default(),
                    remembered: Seq::empty(),
                    code_offset: 0,
                    loc: start,
                }),
                fuel0 as nat,
            ),
        ensures
            spec_run_rec(
                *m,
                arch,
                *cie,
                end,
                pc_offset,
                (CfiMachine {
                    result: old(result)@,
                    initial: ps_default(),
                    remembered: Seq::empty(),
                    code_offset: 0,
                    loc: start,
                }),
                fuel0 as nat,
            ) matches Ok(st) && st.result == result@,
        decreases fuel,
    {
        if fuel == 0 {
            break;
        }
        match run_step(
            m,
            arch,
            cie,
            end,
            result,
            &mut initial_state,
            &mut remember_stack,
            &mut code_offset,
            &mut loc,
        ) {
            Ok(_) => (),
            Err(e) => return Err(e),
        }
        fuel = fuel - 1;
    }
    Ok(())
}

/// "Run" the DWARF call-frame instructions of `fde` (after its CIE's
/// initial instructions) up to the offset of `pc` in the FDE's range, and
/// yield the resulting [`PrologInfo`].
pub fn run(
    m: &Memory,
    arch: Arch,
    pc: u64,
    fde: &FrameDescriptionEntry,
    cie: &CommonInformationEntry,
) -> (r: Result<PrologInfo, DwarfError>)
    ensures
        match r {
            Ok(info) => spec_run(*m, arch, pc, *fde, *cie) == Ok::<PrologSpec, DwarfError>(info@),
            Err(e) => spec_run(*m, arch, pc, *fde, *cie) == Err::<PrologSpec, DwarfError>(e),
        },
{
    proof {
        reveal(spec_run);
    }
    let mut result = PrologInfo::default();
    proof {
        assert(result@ =~= ps_default());
    }
    match run_phase(
        m,
        arch,
        cie,
        &mut result,
        cie.cie_instructions,
        cie.cie_start.wrapping_add(cie.cie_length),
        u64::MAX,
    ) {
        Ok(_) => (),
        Err(e) => return Err(e),
    }
    match run_phase(
        m,
        arch,
        cie,
        &mut result,
        fde.fde_instructions,
        fde.fde_start.wrapping_add(fde.fde_length),
        pc.wrapping_sub(fde.pc_start),
    ) {
        Ok(_) => (),
        Err(e) => return Err(e),
    }
    Ok(result)
}

/// `DW_CFA_remember_state` immediately followed by `DW_CFA_restore_state`
/// is a no-op: the prolog info, the shadow initial state and the
/// remembered-state stack are exactly as before, with only the cursor
/// advanced past the two instructions.
pub proof fn lemma_remember_restore_noop(
    m: Memory,
    arch: Arch,
    cie: CommonInformationEntry,
    end: u64,
    st: CfiMachine,
)
    requires
        st.loc + 2 <= u64::MAX,
        m.byte_at(st.loc) == Some(DW_CFA_REMEMBER_STATE),
        m.byte_at((st.loc + 1) as u64) == Some(DW_CFA_RESTORE_STATE),
    ensures
        spec_run_step(m, arch, cie, end, st) matches Ok(st1) && spec_run_step(
            m,
            arch,
            cie,
            end,
            st1,
        ) matches Ok(st2) && st2 == (CfiMachine { loc: (st.loc + 2) as u64, ..st }),
{
    reveal(spec_run_step);
    let st1 = spec_run_step(m, arch, cie, end, st)->Ok_0;
    assert(st1.remembered == st.remembered.push(st.result));
    let st2 = spec_run_step(m, arch, cie, end, st1)->Ok_0;
    assert(st.remembered.push(st.result).last() == st.result);
    assert(st.remembered.push(st.result).drop_last() =~= st.remembered);
    assert(st2 =~= (CfiMachine { loc: (st.loc + 2) as u64, ..st }));
}

} // verus!

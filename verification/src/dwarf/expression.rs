//! The DWARF expression virtual machine: a bounded stack machine over the
//! memory image and the register bank.
//!
//! The executable evaluator is specified against a specification-level
//! machine: `spec_eval_step` fixes the effect of every opcode on the stack
//! and the cursor, and `spec_eval_rec` runs it to the end of the expression
//! under a fixed step budget.

use vstd::prelude::*;

use crate::dwarf::consts::{
    DW_OP_ABS, DW_OP_ADDR, DW_OP_AND, DW_OP_BRA, DW_OP_BREG0, DW_OP_BREG31, DW_OP_BREGX,
    DW_OP_CONST1S, DW_OP_CONST1U, DW_OP_CONST2S, DW_OP_CONST2U, DW_OP_CONST4S, DW_OP_CONST4U,
    DW_OP_CONST8S, DW_OP_CONST8U, DW_OP_CONSTS, DW_OP_CONSTU, DW_OP_DEREF, DW_OP_DEREF_SIZE,
    DW_OP_DIV, DW_OP_DROP, DW_OP_DUP, DW_OP_EQ, DW_OP_GE, DW_OP_GT, DW_OP_LE, DW_OP_LIT0,
    DW_OP_LIT31, DW_OP_LT, DW_OP_MINUS, DW_OP_MOD, DW_OP_MUL, DW_OP_NE, DW_OP_NEG, DW_OP_NOT,
    DW_OP_OR, DW_OP_OVER, DW_OP_PICK, DW_OP_PLUS, DW_OP_PLUS_UCONST, DW_OP_REG0, DW_OP_REG31,
    DW_OP_REGX, DW_OP_ROT, DW_OP_SHL, DW_OP_SHR, DW_OP_SHRA, DW_OP_SKIP, DW_OP_SWAP, DW_OP_XDEREF,
    DW_OP_XOR,
};
use crate::dwarf::encoding::{decode_sleb128, decode_uleb128, spec_sleb128, spec_uleb128};
use crate::dwarf::DwarfError;
use crate::mem::Memory;
use crate::registers::{spec_valid_register, Registers};

verus! {

/// The value stack holds at most this many slots.
pub const EVALUATE_STACK_MAX: usize = 100;

/// The number of opcodes an expression may execute before evaluation gives
/// up. Branches can move the cursor backwards, so the budget, not the
/// expression's length, bounds the run.
pub const EVALUATE_STEP_BUDGET: u64 = 0x1_0000;

/// The expression evaluator's value stack.
pub struct EvaluateStack {
    pub stack: Vec<u64>,
}

impl EvaluateStack {
    /// The stack's slots, bottom first.
    pub open spec fn view(self) -> Seq<u64> {
        self.stack@
    }

    /// An empty stack.
    pub fn new() -> (r: EvaluateStack)
        ensures
            r@ == Seq::<u64>::empty(),
    {
        let v: Vec<u64> = Vec::new();
        proof {
            assert(v@ =~= Seq::<u64>::empty());
        }
        EvaluateStack { stack: v }
    }

    /// How many slots are in use.
    pub fn len(&self) -> (r: usize)
        ensures
            r == self@.len(),
    {
        self.stack.len()
    }

    /// Push `v` on top.
    pub fn push(&mut self, v: u64)
        requires
            old(self)@.len() < EVALUATE_STACK_MAX,
        ensures
            final(self)@ == old(self)@.push(v),
    {
        self.stack.push(v);
    }

    /// Pop and return the top slot.
    pub fn pop(&mut self) -> (r: u64)
        requires
            old(self)@.len() > 0,
        ensures
            r == old(self)@.last(),
            final(self)@ == old(self)@.drop_last(),
    {
        let r = self.stack[self.stack.len() - 1];
        self.stack.truncate(self.stack.len() - 1);
        proof {
            assert(final(self)@ =~= old(self)@.drop_last());
        }
        r
    }

    /// The slot `n` below the top.
    pub fn top(&self, n: usize) -> (r: u64)
        requires
            n < self@.len(),
        ensures
            r == self@[self@.len() - 1 - n],
    {
        self.stack[self.stack.len() - 1 - n]
    }

    /// Overwrite the slot `n` below the top.
    pub fn set_top(&mut self, n: usize, v: u64)
        requires
            n < old(self)@.len(),
        ensures
            final(self)@ == old(self)@.update(old(self)@.len() - 1 - n, v),
    {
        let i = self.stack.len() - 1 - n;
        self.stack[i] = v;
    }
}

/// The evaluator's state between opcodes: the value stack and the cursor
/// into the expression's bytes.
#[verifier::ext_equal]
pub struct ExprMachine {
    pub stack: Seq<u64>,
    pub loc: u64,
}

/// The effect of the opcode at `st.loc` on the machine. An opcode that
/// would underflow or overflow the stack, divide by zero, or read an
/// invalid register or address fails with the corresponding error.
#[verifier::opaque]
pub open spec fn spec_eval_step(m: Memory, regs: Registers, end: u64, st: ExprMachine) -> Result<
    ExprMachine,
    DwarfError,
> {
    match m.byte_at(st.loc) {
        Option::None => Err(DwarfError::UnreadableAddress(st.loc)),
        Option::Some(op) => {
            let loc = st.loc.wrapping_add(1);
            let s = st.stack;
            if op == DW_OP_ADDR {
                match m.u64_at(loc) {
                    Option::None => Err(DwarfError::UnreadableAddress(loc)),
                    Option::Some(v) => {
                        if s.len() < EVALUATE_STACK_MAX {
                            Ok((ExprMachine { stack: s.push(v), loc: loc.wrapping_add(8) }))
                        } else {
                            Err(DwarfError::InvalidExpression(op))
                        }
                    },
                }
            } else if op == DW_OP_DEREF {
                if s.len() < 1 {
                    Err(DwarfError::InvalidExpression(op))
                } else {
                    match m.u64_at(s.last()) {
                        Option::None => Err(DwarfError::UnreadableAddress(s.last())),
                        Option::Some(v) => Ok(
                            (ExprMachine { stack: s.drop_last().push(v), loc }),
                        ),
                    }
                }
            } else if op == DW_OP_CONST1U {
                match m.byte_at(loc) {
                    Option::None => Err(DwarfError::UnreadableAddress(loc)),
                    Option::Some(v) => {
                        if s.len() < EVALUATE_STACK_MAX {
                            Ok(
                                (ExprMachine {
                                    stack: s.push(v as u64),
                                    loc: loc.wrapping_add(1),
                                }),
                            )
                        } else {
                            Err(DwarfError::InvalidExpression(op))
                        }
                    },
                }
            } else if op == DW_OP_CONST1S {
                match m.byte_at(loc) {
                    Option::None => Err(DwarfError::UnreadableAddress(loc)),
                    Option::Some(v) => {
                        if s.len() < EVALUATE_STACK_MAX {
                            Ok(
                                (ExprMachine {
                                    stack: s.push(((v as i8) as i64) as u64),
                                    loc: loc.wrapping_add(1),
                                }),
                            )
                        } else {
                            Err(DwarfError::InvalidExpression(op))
                        }
                    },
                }
            } else if op == DW_OP_CONST2U {
                match m.u16_at(loc) {
                    Option::None => Err(DwarfError::UnreadableAddress(loc)),
                    Option::Some(v) => {
                        if s.len() < EVALUATE_STACK_MAX {
                            Ok(
                                (ExprMachine {
                                    stack: s.push(v as u64),
                                    loc: loc.wrapping_add(2),
                                }),
                            )
                        } else {
                            Err(DwarfError::InvalidExpression(op))
                        }
                    },
                }
            } else if op == DW_OP_CONST2S {
                match m.u16_at(loc) {
                    Option::None => Err(DwarfError::UnreadableAddress(loc)),
                    Option::Some(v) => {
                        if s.len() < EVALUATE_STACK_MAX {
                            Ok(
                                (ExprMachine {
                                    stack: s.push(((v as i16) as i64) as u64),
                                    loc: loc.wrapping_add(2),
                                }),
                            )
                        } else {
                            Err(DwarfError::InvalidExpression(op))
                        }
                    },
                }
            } else if op == DW_OP_CONST4U {
                match m.u32_at(loc) {
                    Option::None => Err(DwarfError::UnreadableAddress(loc)),
                    Option::Some(v) => {
                        if s.len() < EVALUATE_STACK_MAX {
                            Ok(
                                (ExprMachine {
                                    stack: s.push(v as u64),
                                    loc: loc.wrapping_add(4),
                                }),
                            )
                        } else {
                            Err(DwarfError::InvalidExpression(op))
                        }
                    },
                }
            } else if op == DW_OP_CONST4S {
                match m.u32_at(loc) {
                    Option::None => Err(DwarfError::UnreadableAddress(loc)),
                    Option::Some(v) => {
                        if s.len() < EVALUATE_STACK_MAX {
                            Ok(
                                (ExprMachine {
                                    stack: s.push(((v as i32) as i64) as u64),
                                    loc: loc.wrapping_add(4),
                                }),
                            )
                        } else {
                            Err(DwarfError::InvalidExpression(op))
                        }
                    },
                }
            } else if op == DW_OP_CONST8U || op == DW_OP_CONST8S {
                match m.u64_at(loc) {
                    Option::None => Err(DwarfError::UnreadableAddress(loc)),
                    Option::Some(v) => {
                        if s.len() < EVALUATE_STACK_MAX {
                            Ok(
                                (ExprMachine { stack: s.push(v), loc: loc.wrapping_add(8) }),
                            )
                        } else {
                            Err(DwarfError::InvalidExpression(op))
                        }
                    },
                }
            } else if op == DW_OP_CONSTU {
                match spec_uleb128(m, loc, end) {
                    Err(e) => Err(e),
                    Ok((v, loc2)) => {
                        if s.len() < EVALUATE_STACK_MAX {
                            Ok((ExprMachine { stack: s.push(v), loc: loc2 }))
                        } else {
                            Err(DwarfError::InvalidExpression(op))
                        }
                    },
                }
            } else if op == DW_OP_CONSTS {
                match spec_sleb128(m, loc, end) {
                    Err(e) => Err(e),
                    Ok((v, loc2)) => {
                        if s.len() < EVALUATE_STACK_MAX {
                            Ok((ExprMachine { stack: s.push(v as u64), loc: loc2 }))
                        } else {
                            Err(DwarfError::InvalidExpression(op))
                        }
                    },
                }
            } else if op == DW_OP_DUP {
                if s.len() < 1 || s.len() >= EVALUATE_STACK_MAX {
                    Err(DwarfError::InvalidExpression(op))
                } else {
                    Ok((ExprMachine { stack: s.push(s.last()), loc }))
                }
            } else if op == DW_OP_DROP {
                if s.len() < 1 {
                    Err(DwarfError::InvalidExpression(op))
                } else {
                    Ok((ExprMachine { stack: s.drop_last(), loc }))
                }
            } else if op == DW_OP_OVER {
                if s.len() < 2 || s.len() >= EVALUATE_STACK_MAX {
                    Err(DwarfError::InvalidExpression(op))
                } else {
                    Ok((ExprMachine { stack: s.push(s[s.len() - 2]), loc }))
                }
            } else if op == DW_OP_PICK {
                match m.byte_at(loc) {
                    Option::None => Err(DwarfError::UnreadableAddress(loc)),
                    Option::Some(n) => {
                        if s.len() <= n as int || s.len() >= EVALUATE_STACK_MAX {
                            Err(DwarfError::InvalidExpression(op))
                        } else {
                            Ok(
                                (ExprMachine {
                                    stack: s.push(s[s.len() - 1 - n as int]),
                                    loc: loc.wrapping_add(1),
                                }),
                            )
                        }
                    },
                }
            } else if op == DW_OP_SWAP {
                if s.len() < 2 {
                    Err(DwarfError::InvalidExpression(op))
                } else {
                    Ok(
                        (ExprMachine {
                            stack: s.update(s.len() - 1, s[s.len() - 2]).update(
                                s.len() - 2,
                                s[s.len() - 1],
                            ),
                            loc,
                        }),
                    )
                }
            } else if op == DW_OP_ROT {
                if s.len() < 3 {
                    Err(DwarfError::InvalidExpression(op))
                } else {
                    Ok(
                        (ExprMachine {
                            stack: s.update(s.len() - 1, s[s.len() - 2]).update(
                                s.len() - 2,
                                s[s.len() - 3],
                            ).update(s.len() - 3, s[s.len() - 1]),
                            loc,
                        }),
                    )
                }
            } else if op == DW_OP_XDEREF {
                if s.len() < 2 {
                    Err(DwarfError::InvalidExpression(op))
                } else {
                    match m.u64_at(s.last()) {
                        Option::None => Err(DwarfError::UnreadableAddress(s.last())),
                        Option::Some(v) => Ok(
                            (ExprMachine {
                                stack: s.drop_last().update(s.len() - 2, v),
                                loc,
                            }),
                        ),
                    }
                }
            } else if op == DW_OP_ABS {
                if s.len() < 1 {
                    Err(DwarfError::InvalidExpression(op))
                } else {
                    let v = s.last() as i64;
                    if v < 0 {
                        Ok(
                            (ExprMachine {
                                stack: s.update(s.len() - 1, 0u64.wrapping_sub(v as u64)),
                                loc,
                            }),
                        )
                    } else {
                        Ok((ExprMachine { stack: s, loc }))
                    }
                }
            } else if op == DW_OP_AND {
                if s.len() < 2 {
                    Err(DwarfError::InvalidExpression(op))
                } else {
                    Ok(
                        (ExprMachine {
                            stack: s.drop_last().update(s.len() - 2, s[s.len() - 2] & s.last()),
                            loc,
                        }),
                    )
                }
            } else if op == DW_OP_DIV {
                if s.len() < 2 || s.last() as i64 == 0 {
                    Err(DwarfError::InvalidExpression(op))
                } else {
                    let s1 = s.last() as i64;
                    let s2 = s[s.len() - 2] as i64;
                    let aa = if s2 == i64::MIN {
                        0x8000_0000_0000_0000u64
                    } else if s2 < 0 {
                        (-s2) as u64
                    } else {
                        s2 as u64
                    };
                    let bb = if s1 == i64::MIN {
                        0x8000_0000_0000_0000u64
                    } else if s1 < 0 {
                        (-s1) as u64
                    } else {
                        s1 as u64
                    };
                    let q = (aa / bb) as u64;
                    let qq = if (s2 < 0) != (s1 < 0) {
                        0u64.wrapping_sub(q)
                    } else {
                        q
                    };
                    Ok((ExprMachine { stack: s.drop_last().update(s.len() - 2, qq), loc }))
                }
            } else if op == DW_OP_MINUS {
                if s.len() < 2 {
                    Err(DwarfError::InvalidExpression(op))
                } else {
                    Ok(
                        (ExprMachine {
                            stack: s.drop_last().update(
                                s.len() - 2,
                                s[s.len() - 2].wrapping_sub(s.last()),
                            ),
                            loc,
                        }),
                    )
                }
            } else if op == DW_OP_MOD {
                if s.len() < 2 || s.last() as i64 == 0 {
                    Err(DwarfError::InvalidExpression(op))
                } else {
                    let s1 = s.last() as i64;
                    let s2 = s[s.len() - 2] as i64;
                    let aa = if s2 == i64::MIN {
                        0x8000_0000_0000_0000u64
                    } else if s2 < 0 {
                        (-s2) as u64
                    } else {
                        s2 as u64
                    };
                    let bb = if s1 == i64::MIN {
                        0x8000_0000_0000_0000u64
                    } else if s1 < 0 {
                        (-s1) as u64
                    } else {
                        s1 as u64
                    };
                    let rm = (aa % bb) as u64;
                    let rr = if s2 < 0 {
                        0u64.wrapping_sub(rm)
                    } else {
                        rm
                    };
                    Ok((ExprMachine { stack: s.drop_last().update(s.len() - 2, rr), loc }))
                }
            } else if op == DW_OP_MUL {
                if s.len() < 2 {
                    Err(DwarfError::InvalidExpression(op))
                } else {
                    let s1 = s.last() as i64;
                    let s2 = s[s.len() - 2] as i64;
                    Ok(
                        (ExprMachine {
                            stack: s.drop_last().update(
                                s.len() - 2,
                                s2.wrapping_mul(s1) as u64,
                            ),
                            loc,
                        }),
                    )
                }
            } else if op == DW_OP_NEG {
                if s.len() < 1 {
                    Err(DwarfError::InvalidExpression(op))
                } else {
                    Ok(
                        (ExprMachine {
                            stack: s.update(s.len() - 1, 0u64.wrapping_sub(s.last())),
                            loc,
                        }),
                    )
                }
            } else if op == DW_OP_NOT {
                if s.len() < 1 {
                    Err(DwarfError::InvalidExpression(op))
                } else {
                    Ok(
                        (ExprMachine {
                            stack: s.update(s.len() - 1, (!(s.last() as i64)) as u64),
                            loc,
                        }),
                    )
                }
            } else if op == DW_OP_OR {
                if s.len() < 2 {
                    Err(DwarfError::InvalidExpression(op))
                } else {
                    Ok(
                        (ExprMachine {
                            stack: s.drop_last().update(s.len() - 2, s[s.len() - 2] | s.last()),
                            loc,
                        }),
                    )
                }
            } else if op == DW_OP_PLUS {
                if s.len() < 2 {
                    Err(DwarfError::InvalidExpression(op))
                } else {
                    Ok(
                        (ExprMachine {
                            stack: s.drop_last().update(
                                s.len() - 2,
                                s[s.len() - 2].wrapping_add(s.last()),
                            ),
                            loc,
                        }),
                    )
                }
            } else if op == DW_OP_PLUS_UCONST {
                match spec_uleb128(m, loc, end) {
                    Err(e) => Err(e),
                    Ok((v, loc2)) => {
                        if s.len() < 1 {
                            Err(DwarfError::InvalidExpression(op))
                        } else {
                            Ok(
                                (ExprMachine {
                                    stack: s.update(s.len() - 1, s.last().wrapping_add(v)),
                                    loc: loc2,
                                }),
                            )
                        }
                    },
                }
            } else if op == DW_OP_SHL {
                if s.len() < 2 {
                    Err(DwarfError::InvalidExpression(op))
                } else {
                    let sh = s.last();
                    let v = if sh >= 64 {
                        0u64
                    } else {
                        s[s.len() - 2] << sh
                    };
                    Ok((ExprMachine { stack: s.drop_last().update(s.len() - 2, v), loc }))
                }
            } else if op == DW_OP_SHR {
                if s.len() < 2 {
                    Err(DwarfError::InvalidExpression(op))
                } else {
                    let sh = s.last();
                    let v = if sh >= 64 {
                        0u64
                    } else {
                        s[s.len() - 2] >> sh
                    };
                    Ok((ExprMachine { stack: s.drop_last().update(s.len() - 2, v), loc }))
                }
            } else if op == DW_OP_SHRA {
                if s.len() < 2 {
                    Err(DwarfError::InvalidExpression(op))
                } else {
                    let sh = s.last();
                    let x = s[s.len() - 2] as i64;
                    let v = if sh >= 64 {
                        (x >> 63u64) as u64
                    } else {
                        (x >> sh) as u64
                    };
                    Ok((ExprMachine { stack: s.drop_last().update(s.len() - 2, v), loc }))
                }
            } else if op == DW_OP_XOR {
                if s.len() < 2 {
                    Err(DwarfError::InvalidExpression(op))
                } else {
                    Ok(
                        (ExprMachine {
                            stack: s.drop_last().update(s.len() - 2, s[s.len() - 2] ^ s.last()),
                            loc,
                        }),
                    )
                }
            } else if op == DW_OP_SKIP {
                match m.u16_at(loc) {
                    Option::None => Err(DwarfError::UnreadableAddress(loc)),
                    Option::Some(d) => Ok(
                        (ExprMachine {
                            stack: s,
                            loc: loc.wrapping_add(2).wrapping_add(((d as i16) as i64) as u64),
                        }),
                    ),
                }
            } else if op == DW_OP_BRA {
                match m.u16_at(loc) {
                    Option::None => Err(DwarfError::UnreadableAddress(loc)),
                    Option::Some(d) => {
                        if s.len() < 1 {
                            Err(DwarfError::InvalidExpression(op))
                        } else {
                            let loc2 = if s.last() != 0 {
                                loc.wrapping_add(2).wrapping_add(((d as i16) as i64) as u64)
                            } else {
                                loc.wrapping_add(2)
                            };
                            Ok((ExprMachine { stack: s.drop_last(), loc: loc2 }))
                        }
                    },
                }
            } else if op == DW_OP_EQ || op == DW_OP_GE || op == DW_OP_GT || op == DW_OP_LE || op
                == DW_OP_LT || op == DW_OP_NE {
                if s.len() < 2 {
                    Err(DwarfError::InvalidExpression(op))
                } else {
                    let u1 = s.last();
                    let u2 = s[s.len() - 2];
                    let t = if op == DW_OP_EQ {
                        u2 == u1
                    } else if op == DW_OP_GE {
                        u2 >= u1
                    } else if op == DW_OP_GT {
                        u2 > u1
                    } else if op == DW_OP_LE {
                        u2 <= u1
                    } else if op == DW_OP_LT {
                        u2 < u1
                    } else {
                        u2 != u1
                    };
                    let v = if t {
                        1u64
                    } else {
                        0u64
                    };
                    Ok((ExprMachine { stack: s.drop_last().update(s.len() - 2, v), loc }))
                }
            } else if DW_OP_LIT0 <= op && op <= DW_OP_LIT31 {
                if s.len() >= EVALUATE_STACK_MAX {
                    Err(DwarfError::InvalidExpression(op))
                } else {
                    Ok((ExprMachine { stack: s.push((op - DW_OP_LIT0) as u64), loc }))
                }
            } else if DW_OP_REG0 <= op && op <= DW_OP_REG31 {
                let reg = (op - DW_OP_REG0) as usize;
                if !spec_valid_register(regs.arch, reg) {
                    Err(DwarfError::InvalidExpressionRegisterNumber(reg as u32))
                } else if s.len() >= EVALUATE_STACK_MAX {
                    Err(DwarfError::InvalidExpression(op))
                } else {
                    Ok((ExprMachine { stack: s.push(regs.regs@[reg as int]), loc }))
                }
            } else if op == DW_OP_REGX {
                match spec_uleb128(m, loc, end) {
                    Err(e) => Err(e),
                    Ok((v, loc2)) => {
                        let reg = (v as u32) as usize;
                        if !spec_valid_register(regs.arch, reg) {
                            Err(DwarfError::InvalidExpressionRegisterNumber(reg as u32))
                        } else if s.len() >= EVALUATE_STACK_MAX {
                            Err(DwarfError::InvalidExpression(op))
                        } else {
                            Ok(
                                (ExprMachine {
                                    stack: s.push(regs.regs@[reg as int]),
                                    loc: loc2,
                                }),
                            )
                        }
                    },
                }
            } else if DW_OP_BREG0 <= op && op <= DW_OP_BREG31 {
                let reg = (op - DW_OP_BREG0) as usize;
                match spec_sleb128(m, loc, end) {
                    Err(e) => Err(e),
                    Ok((d, loc2)) => {
                        if !spec_valid_register(regs.arch, reg) {
                            Err(DwarfError::InvalidExpressionRegisterNumber(reg as u32))
                        } else if s.len() >= EVALUATE_STACK_MAX {
                            Err(DwarfError::InvalidExpression(op))
                        } else {
                            Ok(
                                (ExprMachine {
                                    stack: s.push(
                                        d.wrapping_add(regs.regs@[reg as int] as i64) as u64,
                                    ),
                                    loc: loc2,
                                }),
                            )
                        }
                    },
                }
            } else if op == DW_OP_BREGX {
                match spec_uleb128(m, loc, end) {
                    Err(e) => Err(e),
                    Ok((v, loc2)) => {
                        let reg = (v as u32) as usize;
                        match spec_sleb128(m, loc2, end) {
                            Err(e) => Err(e),
                            Ok((d, loc3)) => {
                                if !spec_valid_register(regs.arch, reg) {
                                    Err(DwarfError::InvalidExpressionRegisterNumber(reg as u32))
                                } else if s.len() >= EVALUATE_STACK_MAX {
                                    Err(DwarfError::InvalidExpression(op))
                                } else {
                                    Ok(
                                        (ExprMachine {
                                            stack: s.push(
                                                d.wrapping_add(
                                                    regs.regs@[reg as int] as i64,
                                                ) as u64,
                                            ),
                                            loc: loc3,
                                        }),
                                    )
                                }
                            },
                        }
                    },
                }
            } else if op == DW_OP_DEREF_SIZE {
                if s.len() < 1 {
                    Err(DwarfError::InvalidExpression(op))
                } else {
                    match m.byte_at(loc) {
                        Option::None => Err(DwarfError::UnreadableAddress(loc)),
                        Option::Some(sz) => {
                            let addr = s.last();
                            let v: Result<u64, DwarfError> = if sz == 1 {
                                match m.byte_at(addr) {
                                    Option::None => Err(DwarfError::UnreadableAddress(addr)),
                                    Option::Some(b) => Ok(b as u64),
                                }
                            } else if sz == 2 {
                                match m.u16_at(addr) {
                                    Option::None => Err(DwarfError::UnreadableAddress(addr)),
                                    Option::Some(b) => Ok(b as u64),
                                }
                            } else if sz == 4 {
                                match m.u32_at(addr) {
                                    Option::None => Err(DwarfError::UnreadableAddress(addr)),
                                    Option::Some(b) => Ok(b as u64),
                                }
                            } else if sz == 8 {
                                match m.u64_at(addr) {
                                    Option::None => Err(DwarfError::UnreadableAddress(addr)),
                                    Option::Some(b) => Ok(b),
                                }
                            } else {
                                Err(DwarfError::InvalidExpressionDerefSize(sz))
                            };
                            match v {
                                Err(e) => Err(e),
                                Ok(v) => Ok(
                                    (ExprMachine {
                                        stack: s.drop_last().push(v),
                                        loc: loc.wrapping_add(1),
                                    }),
                                ),
                            }
                        },
                    }
                }
            } else {
                Err(DwarfError::InvalidExpression(op))
            }
        },
    }
}

/// Run the machine until the cursor leaves `[.., end)` or the step budget
/// is exhausted.
pub open spec fn spec_eval_rec(
    m: Memory,
    regs: Registers,
    end: u64,
    st: ExprMachine,
    fuel: nat,
) -> Result<ExprMachine, DwarfError>
    decreases fuel,
{
    if st.loc >= end {
        Ok(st)
    } else if fuel == 0 {
        Err(DwarfError::InvalidExpression(0))
    } else {
        match spec_eval_step(m, regs, end, st) {
            Err(e) => Err(e),
            Ok(st2) => spec_eval_rec(m, regs, end, st2, (fuel - 1) as nat),
        }
    }
}

/// The value of the DWARF expression at `expression`: its length-prefixed
/// opcodes are run on a stack seeded with `initial_stack`, and the top of
/// the stack at the end of the program is the result.
#[verifier::opaque]
pub open spec fn spec_evaluate(
    m: Memory,
    regs: Registers,
    expression: u64,
    initial_stack: u64,
) -> Result<u64, DwarfError> {
    match spec_uleb128(m, expression, expression.wrapping_add(20)) {
        Err(e) => Err(e),
        Ok((len, loc)) => {
            let end = loc.wrapping_add(len);
            match spec_eval_rec(
                m,
                regs,
                end,
                (ExprMachine { stack: seq![initial_stack], loc }),
                EVALUATE_STEP_BUDGET as nat,
            ) {
                Err(e) => Err(e),
                Ok(st) => {
                    if st.stack.len() == 0 {
                        Err(DwarfError::InvalidExpression(0))
                    } else {
                        Ok(st.stack.last())
                    }
                },
            }
        },
    }
}

/// Execute one opcode at `loc`, updating the stack and the cursor.
#[verifier::rlimit(100)]
fn eval_step(
    m: &Memory,
    regs: &Registers,
    end: u64,
    stack: &mut EvaluateStack,
    loc: &mut u64,
) -> (r: Result<(), DwarfError>)
    requires
        old(stack)@.len() <= EVALUATE_STACK_MAX,
    ensures
        final(stack)@.len() <= EVALUATE_STACK_MAX,
        match r {
            Ok(_) => spec_eval_step(
                *m,
                *regs,
                end,
                (ExprMachine { stack: old(stack)@, loc: *old(loc) }),
            ) == Ok::<ExprMachine, DwarfError>(
                ExprMachine { stack: final(stack)@, loc: *final(loc) },
            ),
            Err(e) => spec_eval_step(
                *m,
                *regs,
                end,
                (ExprMachine { stack: old(stack)@, loc: *old(loc) }),
            ) == Err::<ExprMachine, DwarfError>(e),
        },
{
    proof {
        reveal(spec_eval_step);
    }
    let op = match m.read_u8(*loc) {
        Ok(v) => v,
        Err(e) => return Err(e),
    };
    *loc = loc.wrapping_add(1);
    if op == DW_OP_ADDR {
        let v = match m.read_u64(*loc) {
            Ok(v) => v,
            Err(e) => return Err(e),
        };
        if stack.len() < EVALUATE_STACK_MAX {
            stack.push(v);
            *loc = loc.wrapping_add(8);
            Ok(())
        } else {
            Err(DwarfError::InvalidExpression(op))
        }
    } else if op == DW_OP_DEREF {
        if stack.len() < 1 {
            return Err(DwarfError::InvalidExpression(op));
        }
        let addr = stack.pop();
        let v = match m.read_u64(addr) {
            Ok(v) => v,
            Err(e) => return Err(e),
        };
        stack.push(v);
        Ok(())
    } else if op == DW_OP_CONST1U {
        let v = match m.read_u8(*loc) {
            Ok(v) => v,
            Err(e) => return Err(e),
        };
        if stack.len() < EVALUATE_STACK_MAX {
            stack.push(v as u64);
            *loc = loc.wrapping_add(1);
            Ok(())
        } else {
            Err(DwarfError::InvalidExpression(op))
        }
    } else if op == DW_OP_CONST1S {
        let v = match m.read_u8(*loc) {
            Ok(v) => v,
            Err(e) => return Err(e),
        };
        if stack.len() < EVALUATE_STACK_MAX {
            stack.push(((v as i8) as i64) as u64);
            *loc = loc.wrapping_add(1);
            Ok(())
        } else {
            Err(DwarfError::InvalidExpression(op))
        }
    } else if op == DW_OP_CONST2U {
        let v = match m.read_u16(*loc) {
            Ok(v) => v,
            Err(e) => return Err(e),
        };
        if stack.len() < EVALUATE_STACK_MAX {
            stack.push(v as u64);
            *loc = loc.wrapping_add(2);
            Ok(())
        } else {
            Err(DwarfError::InvalidExpression(op))
        }
    } else if op == DW_OP_CONST2S {
        let v = match m.read_u16(*loc) {
            Ok(v) => v,
            Err(e) => return Err(e),
        };
        if stack.len() < EVALUATE_STACK_MAX {
            stack.push(((v as i16) as i64) as u64);
            *loc = loc.wrapping_add(2);
            Ok(())
        } else {
            Err(DwarfError::InvalidExpression(op))
        }
    } else if op == DW_OP_CONST4U {
        let v = match m.read_u32(*loc) {
            Ok(v) => v,
            Err(e) => return Err(e),
        };
        if stack.len() < EVALUATE_STACK_MAX {
            stack.push(v as u64);
            *loc = loc.wrapping_add(4);
            Ok(())
        } else {
            Err(DwarfError::InvalidExpression(op))
        }
    } else if op == DW_OP_CONST4S {
        let v = match m.read_u32(*loc) {
            Ok(v) => v,
            Err(e) => return Err(e),
        };
        if stack.len() < EVALUATE_STACK_MAX {
            stack.push(((v as i32) as i64) as u64);
            *loc = loc.wrapping_add(4);
            Ok(())
        } else {
            Err(DwarfError::InvalidExpression(op))
        }
    } else if op == DW_OP_CONST8U || op == DW_OP_CONST8S {
        let v = match m.read_u64(*loc) {
            Ok(v) => v,
            Err(e) => return Err(e),
        };
        if stack.len() < EVALUATE_STACK_MAX {
            stack.push(v);
            *loc = loc.wrapping_add(8);
            Ok(())
        } else {
            Err(DwarfError::InvalidExpression(op))
        }
    } else if op == DW_OP_CONSTU {
        let v = match decode_uleb128(m, loc, end) {
            Ok(v) => v,
            Err(e) => return Err(e),
        };
        if stack.len() < EVALUATE_STACK_MAX {
            stack.push(v);
            Ok(())
        } else {
            Err(DwarfError::InvalidExpression(op))
        }
    } else if op == DW_OP_CONSTS {
        let v = match decode_sleb128(m, loc, end) {
            Ok(v) => v,
            Err(e) => return Err(e),
        };
        if stack.len() < EVALUATE_STACK_MAX {
            stack.push(v as u64);
            Ok(())
        } else {
            Err(DwarfError::InvalidExpression(op))
        }
    } else if op == DW_OP_DUP {
        if stack.len() < 1 || stack.len() >= EVALUATE_STACK_MAX {
            return Err(DwarfError::InvalidExpression(op));
        }
        let v = stack.top(0);
        stack.push(v);
        Ok(())
    } else if op == DW_OP_DROP {
        if stack.len() < 1 {
            return Err(DwarfError::InvalidExpression(op));
        }
        stack.pop();
        Ok(())
    } else if op == DW_OP_OVER {
        if stack.len() < 2 || stack.len() >= EVALUATE_STACK_MAX {
            return Err(DwarfError::InvalidExpression(op));
        }
        let v = stack.top(1);
        stack.push(v);
        Ok(())
    } else if op == DW_OP_PICK {
        let n = match m.read_u8(*loc) {
            Ok(v) => v,
            Err(e) => return Err(e),
        };
        if stack.len() <= n as usize || stack.len() >= EVALUATE_STACK_MAX {
            return Err(DwarfError::InvalidExpression(op));
        }
        let v = stack.top(n as usize);
        stack.push(v);
        *loc = loc.wrapping_add(1);
        Ok(())
    } else if op == DW_OP_SWAP {
        if stack.len() < 2 {
            return Err(DwarfError::InvalidExpression(op));
        }
        let a = stack.top(0);
        let b = stack.top(1);
        stack.set_top(0, b);
        stack.set_top(1, a);
        Ok(())
    } else if op == DW_OP_ROT {
        if stack.len() < 3 {
            return Err(DwarfError::InvalidExpression(op));
        }
        let a = stack.top(0);
        let b = stack.top(1);
        let c = stack.top(2);
        stack.set_top(0, b);
        stack.set_top(1, c);
        stack.set_top(2, a);
        Ok(())
    } else if op == DW_OP_XDEREF {
        if stack.len() < 2 {
            return Err(DwarfError::InvalidExpression(op));
        }
        let addr = stack.pop();
        let v = match m.read_u64(addr) {
            Ok(v) => v,
            Err(e) => return Err(e),
        };
        stack.set_top(0, v);
        Ok(())
    } else if op == DW_OP_ABS {
        if stack.len() < 1 {
            return Err(DwarfError::InvalidExpression(op));
        }
        let v = stack.top(0) as i64;
        if v < 0 {
            stack.set_top(0, 0u64.wrapping_sub(v as u64));
        }
        Ok(())
    } else if op == DW_OP_AND {
        if stack.len() < 2 {
            return Err(DwarfError::InvalidExpression(op));
        }
        let u1 = stack.pop();
        let u2 = stack.top(0);
        stack.set_top(0, u2 & u1);
        Ok(())
    } else if op == DW_OP_DIV {
        if stack.len() < 2 || stack.top(0) as i64 == 0 {
            return Err(DwarfError::InvalidExpression(op));
        }
        let s1 = stack.pop() as i64;
        let s2 = stack.top(0) as i64;
        let aa: u64 = if s2 == i64::MIN {
            0x8000_0000_0000_0000u64
        } else if s2 < 0 {
            (-s2) as u64
        } else {
            s2 as u64
        };
        let bb: u64 = if s1 == i64::MIN {
            0x8000_0000_0000_0000u64
        } else if s1 < 0 {
            (-s1) as u64
        } else {
            s1 as u64
        };
        let q: u64 = aa / bb;
        let qq: u64 = if (s2 < 0) != (s1 < 0) {
            0u64.wrapping_sub(q)
        } else {
            q
        };
        stack.set_top(0, qq);
        Ok(())
    } else if op == DW_OP_MINUS {
        if stack.len() < 2 {
            return Err(DwarfError::InvalidExpression(op));
        }
        let u1 = stack.pop();
        let u2 = stack.top(0);
        stack.set_top(0, u2.wrapping_sub(u1));
        Ok(())
    } else if op == DW_OP_MOD {
        if stack.len() < 2 || stack.top(0) as i64 == 0 {
            return Err(DwarfError::InvalidExpression(op));
        }
        let s1 = stack.pop() as i64;
        let s2 = stack.top(0) as i64;
        let aa: u64 = if s2 == i64::MIN {
            0x8000_0000_0000_0000u64
        } else if s2 < 0 {
            (-s2) as u64
        } else {
            s2 as u64
        };
        let bb: u64 = if s1 == i64::MIN {
            0x8000_0000_0000_0000u64
        } else if s1 < 0 {
            (-s1) as u64
        } else {
            s1 as u64
        };
        let rm: u64 = aa % bb;
        let rr: u64 = if s2 < 0 {
            0u64.wrapping_sub(rm)
        } else {
            rm
        };
        stack.set_top(0, rr);
        Ok(())
    } else if op == DW_OP_MUL {
        if stack.len() < 2 {
            return Err(DwarfError::InvalidExpression(op));
        }
        let s1 = stack.pop() as i64;
        let s2 = stack.top(0) as i64;
        stack.set_top(0, s2.wrapping_mul(s1) as u64);
        Ok(())
    } else if op == DW_OP_NEG {
        if stack.len() < 1 {
            return Err(DwarfError::InvalidExpression(op));
        }
        let v = stack.top(0);
        stack.set_top(0, 0u64.wrapping_sub(v));
        Ok(())
    } else if op == DW_OP_NOT {
        if stack.len() < 1 {
            return Err(DwarfError::InvalidExpression(op));
        }
        let v = stack.top(0) as i64;
        stack.set_top(0, (!v) as u64);
        Ok(())
    } else if op == DW_OP_OR {
        if stack.len() < 2 {
            return Err(DwarfError::InvalidExpression(op));
        }
        let u1 = stack.pop();
        let u2 = stack.top(0);
        stack.set_top(0, u2 | u1);
        Ok(())
    } else if op == DW_OP_PLUS {
        if stack.len() < 2 {
            return Err(DwarfError::InvalidExpression(op));
        }
        let u1 = stack.pop();
        let u2 = stack.top(0);
        stack.set_top(0, u2.wrapping_add(u1));
        Ok(())
    } else if op == DW_OP_PLUS_UCONST {
        let v = match decode_uleb128(m, loc, end) {
            Ok(v) => v,
            Err(e) => return Err(e),
        };
        if stack.len() < 1 {
            return Err(DwarfError::InvalidExpression(op));
        }
        let u2 = stack.top(0);
        stack.set_top(0, u2.wrapping_add(v));
        Ok(())
    } else if op == DW_OP_SHL {
        if stack.len() < 2 {
            return Err(DwarfError::InvalidExpression(op));
        }
        let sh = stack.pop();
        let u2 = stack.top(0);
        let v = if sh >= 64 {
            0u64
        } else {
            u2 << sh
        };
        stack.set_top(0, v);
        Ok(())
    } else if op == DW_OP_SHR {
        if stack.len() < 2 {
            return Err(DwarfError::InvalidExpression(op));
        }
        let sh = stack.pop();
        let u2 = stack.top(0);
        let v = if sh >= 64 {
            0u64
        } else {
            u2 >> sh
        };
        stack.set_top(0, v);
        Ok(())
    } else if op == DW_OP_SHRA {
        if stack.len() < 2 {
            return Err(DwarfError::InvalidExpression(op));
        }
        let sh = stack.pop();
        let x = stack.top(0) as i64;
        let v = if sh >= 64 {
            (x >> 63u64) as u64
        } else {
            (x >> sh) as u64
        };
        stack.set_top(0, v);
        Ok(())
    } else if op == DW_OP_XOR {
        if stack.len() < 2 {
            return Err(DwarfError::InvalidExpression(op));
        }
        let u1 = stack.pop();
        let u2 = stack.top(0);
        stack.set_top(0, u2 ^ u1);
        Ok(())
    } else if op == DW_OP_SKIP {
        let d = match m.read_u16(*loc) {
            Ok(v) => v,
            Err(e) => return Err(e),
        };
        *loc = loc.wrapping_add(2).wrapping_add(((d as i16) as i64) as u64);
        Ok(())
    } else if op == DW_OP_BRA {
        let d = match m.read_u16(*loc) {
            Ok(v) => v,
            Err(e) => return Err(e),
        };
        if stack.len() < 1 {
            return Err(DwarfError::InvalidExpression(op));
        }
        let c = stack.pop();
        if c != 0 {
            *loc = loc.wrapping_add(2).wrapping_add(((d as i16) as i64) as u64);
        } else {
            *loc = loc.wrapping_add(2);
        }
        Ok(())
    } else if op == DW_OP_EQ || op == DW_OP_GE || op == DW_OP_GT || op == DW_OP_LE || op
        == DW_OP_LT || op == DW_OP_NE {
        if stack.len() < 2 {
            return Err(DwarfError::InvalidExpression(op));
        }
        let u1 = stack.pop();
        let u2 = stack.top(0);
        let t = if op == DW_OP_EQ {
            u2 == u1
        } else if op == DW_OP_GE {
            u2 >= u1
        } else if op == DW_OP_GT {
            u2 > u1
        } else if op == DW_OP_LE {
            u2 <= u1
        } else if op == DW_OP_LT {
            u2 < u1
        } else {
            u2 != u1
        };
        stack.set_top(0, if t {
            1
        } else {
            0
        });
        Ok(())
    } else if DW_OP_LIT0 <= op && op <= DW_OP_LIT31 {
        if stack.len() >= EVALUATE_STACK_MAX {
            return Err(DwarfError::InvalidExpression(op));
        }
        stack.push((op - DW_OP_LIT0) as u64);
        Ok(())
    } else if DW_OP_REG0 <= op && op <= DW_OP_REG31 {
        let reg = (op - DW_OP_REG0) as usize;
        if !regs.valid_register(reg) {
            return Err(DwarfError::InvalidExpressionRegisterNumber(reg as u32));
        }
        if stack.len() >= EVALUATE_STACK_MAX {
            return Err(DwarfError::InvalidExpression(op));
        }
        stack.push(regs.get(reg));
        Ok(())
    } else if op == DW_OP_REGX {
        let v = match decode_uleb128(m, loc, end) {
            Ok(v) => v,
            Err(e) => return Err(e),
        };
        let reg = (v as u32) as usize;
        if !regs.valid_register(reg) {
            return Err(DwarfError::InvalidExpressionRegisterNumber(reg as u32));
        }
        if stack.len() >= EVALUATE_STACK_MAX {
            return Err(DwarfError::InvalidExpression(op));
        }
        stack.push(regs.get(reg));
        Ok(())
    } else if DW_OP_BREG0 <= op && op <= DW_OP_BREG31 {
        let reg = (op - DW_OP_BREG0) as usize;
        let d = match decode_sleb128(m, loc, end) {
            Ok(v) => v,
            Err(e) => return Err(e),
        };
        if !regs.valid_register(reg) {
            return Err(DwarfError::InvalidExpressionRegisterNumber(reg as u32));
        }
        if stack.len() >= EVALUATE_STACK_MAX {
            return Err(DwarfError::InvalidExpression(op));
        }
        stack.push(d.wrapping_add(regs.get(reg) as i64) as u64);
        Ok(())
    } else if op == DW_OP_BREGX {
        let v = match decode_uleb128(m, loc, end) {
            Ok(v) => v,
            Err(e) => return Err(e),
        };
        let reg = (v as u32) as usize;
        let d = match decode_sleb128(m, loc, end) {
            Ok(v) => v,
            Err(e) => return Err(e),
        };
        if !regs.valid_register(reg) {
            return Err(DwarfError::InvalidExpressionRegisterNumber(reg as u32));
        }
        if stack.len() >= EVALUATE_STACK_MAX {
            return Err(DwarfError::InvalidExpression(op));
        }
        stack.push(d.wrapping_add(regs.get(reg) as i64) as u64);
        Ok(())
    } else if op == DW_OP_DEREF_SIZE {
        if stack.len() < 1 {
            return Err(DwarfError::InvalidExpression(op));
        }
        let sz = match m.read_u8(*loc) {
            Ok(v) => v,
            Err(e) => return Err(e),
        };
        let addr = stack.top(0);
        let v: u64 = if sz == 1 {
            match m.read_u8(addr) {
                Ok(b) => b as u64,
                Err(e) => return Err(e),
            }
        } else if sz == 2 {
            match m.read_u16(addr) {
                Ok(b) => b as u64,
                Err(e) => return Err(e),
            }
        } else if sz == 4 {
            match m.read_u32(addr) {
                Ok(b) => b as u64,
                Err(e) => return Err(e),
            }
        } else if sz == 8 {
            match m.read_u64(addr) {
                Ok(b) => b,
                Err(e) => return Err(e),
            }
        } else {
            return Err(DwarfError::InvalidExpressionDerefSize(sz));
        };
        stack.pop();
        stack.push(v);
        *loc = loc.wrapping_add(1);
        Ok(())
    } else {
        Err(DwarfError::InvalidExpression(op))
    }
}

/// Evaluate the DWARF expression at `expression` against the memory image
/// and the register bank, with `initial_stack` as the initially pushed
/// value (callers pass the CFA, or 0 when computing the CFA itself).
pub fn evaluate(m: &Memory, regs: &Registers, expression: u64, initial_stack: u64) -> (r: Result<
    u64,
    DwarfError,
>)
    ensures
        r == spec_evaluate(*m, *regs, expression, initial_stack),
{
    proof {
        reveal(spec_evaluate);
    }
    let mut loc = expression;
    // The expression's first ULEB gives its length; 20 bytes generously
    // bound the length field itself.
    let len = match decode_uleb128(m, &mut loc, expression.wrapping_add(20)) {
        Ok(v) => v,
        Err(e) => return Err(e),
    };
    let end = loc.wrapping_add(len);
    let mut stack = EvaluateStack::new();
    stack.push(initial_stack);
    let mut fuel: u64 = EVALUATE_STEP_BUDGET;
    let ghost loc0: u64 = loc;
    proof {
        assert(stack@ =~= seq![initial_stack]);
    }
    while loc < end
        invariant
            fuel <= EVALUATE_STEP_BUDGET,
            stack@.len() <= EVALUATE_STACK_MAX,
            spec_uleb128(*m, expression, expression.wrapping_add(20)) == Ok::<
                (u64, u64),
                DwarfError,
            >((len, loc0)),
            end == loc0.wrapping_add(len),
            spec_eval_rec(
                *m,
                *regs,
                end,
                (ExprMachine { stack: stack@, loc }),
                fuel as nat,
            ) == spec_eval_rec(
                *m,
                *regs,
                end,
                (ExprMachine { stack: seq![initial_stack], loc: loc0 }),
                EVALUATE_STEP_BUDGET as nat,
            ),
        decreases fuel,
    {
        proof {
            reveal(spec_evaluate);
        }
        if fuel == 0 {
            return Err(DwarfError::InvalidExpression(0));
        }
        match eval_step(m, regs, end, &mut stack, &mut loc) {
            Ok(_) => (),
            Err(e) => return Err(e),
        }
        fuel = fuel - 1;
    }
    if stack.len() == 0 {
        return Err(DwarfError::InvalidExpression(0));
    }
    Ok(stack.top(0))
}

} // verus!

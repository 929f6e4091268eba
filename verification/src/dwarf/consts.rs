//! DWARF constants: pointer-encoding bits, call-frame-instruction opcodes
//! and expression opcodes, as fixed by the DWARF specification and the
//! Linux Standard Base `.eh_frame_hdr` description.

use vstd::prelude::*;

verus! {

// Pointer-encoding value widths (low nibble).
pub const DW_EH_PE_PTR: u8 = 0x00;
pub const DW_EH_PE_ULEB128: u8 = 0x01;
pub const DW_EH_PE_UDATA2: u8 = 0x02;
pub const DW_EH_PE_UDATA4: u8 = 0x03;
pub const DW_EH_PE_UDATA8: u8 = 0x04;
pub const DW_EH_PE_SLEB128: u8 = 0x09;
pub const DW_EH_PE_SDATA2: u8 = 0x0A;
pub const DW_EH_PE_SDATA4: u8 = 0x0B;
pub const DW_EH_PE_SDATA8: u8 = 0x0C;

// Pointer-encoding relocation bases (bits 4 to 6).
pub const DW_EH_PE_ABSPTR: u8 = 0x00;
pub const DW_EH_PE_PCREL: u8 = 0x10;
pub const DW_EH_PE_DATAREL: u8 = 0x30;

// The value is a pointer to the real value.
pub const DW_EH_PE_INDIRECT: u8 = 0x80;

// No value is present.
pub const DW_EH_PE_OMIT: u8 = 0xFF;

// Call-frame instructions with operands in the opcode's low six bits
// (the opcode is the top two bits).
pub const DW_CFA_ADVANCE_LOC: u8 = 0x40;
pub const DW_CFA_OFFSET: u8 = 0x80;
pub const DW_CFA_RESTORE: u8 = 0xC0;

// Call-frame instructions encoded in a full byte.
pub const DW_CFA_NOP: u8 = 0x00;
pub const DW_CFA_SET_LOC: u8 = 0x01;
pub const DW_CFA_ADVANCE_LOC1: u8 = 0x02;
pub const DW_CFA_ADVANCE_LOC2: u8 = 0x03;
pub const DW_CFA_ADVANCE_LOC4: u8 = 0x04;
pub const DW_CFA_OFFSET_EXTENDED: u8 = 0x05;
pub const DW_CFA_RESTORE_EXTENDED: u8 = 0x06;
pub const DW_CFA_UNDEFINED: u8 = 0x07;
pub const DW_CFA_SAME_VALUE: u8 = 0x08;
pub const DW_CFA_REGISTER: u8 = 0x09;
pub const DW_CFA_REMEMBER_STATE: u8 = 0x0A;
pub const DW_CFA_RESTORE_STATE: u8 = 0x0B;
pub const DW_CFA_DEF_CFA: u8 = 0x0C;
pub const DW_CFA_DEF_CFA_REGISTER: u8 = 0x0D;
pub const DW_CFA_DEF_CFA_OFFSET: u8 = 0x0E;
pub const DW_CFA_DEF_CFA_EXPRESSION: u8 = 0x0F;
pub const DW_CFA_EXPRESSION: u8 = 0x10;
pub const DW_CFA_OFFSET_EXTENDED_SF: u8 = 0x11;
pub const DW_CFA_DEF_CFA_SF: u8 = 0x12;
pub const DW_CFA_DEF_CFA_OFFSET_SF: u8 = 0x13;
pub const DW_CFA_VAL_OFFSET: u8 = 0x14;
pub const DW_CFA_VAL_OFFSET_SF: u8 = 0x15;
pub const DW_CFA_VAL_EXPRESSION: u8 = 0x16;
pub const DW_CFA_AARCH64_NEGATE_RA_STATE: u8 = 0x2D;
pub const DW_CFA_GNU_ARGS_SIZE: u8 = 0x2E;
pub const DW_CFA_GNU_NEGATIVE_OFFSET_EXTENDED: u8 = 0x2F;

// DWARF expression opcodes.
pub const DW_OP_ADDR: u8 = 0x03;
pub const DW_OP_DEREF: u8 = 0x06;
pub const DW_OP_CONST1U: u8 = 0x08;
pub const DW_OP_CONST1S: u8 = 0x09;
pub const DW_OP_CONST2U: u8 = 0x0A;
pub const DW_OP_CONST2S: u8 = 0x0B;
pub const DW_OP_CONST4U: u8 = 0x0C;
pub const DW_OP_CONST4S: u8 = 0x0D;
pub const DW_OP_CONST8U: u8 = 0x0E;
pub const DW_OP_CONST8S: u8 = 0x0F;
pub const DW_OP_CONSTU: u8 = 0x10;
pub const DW_OP_CONSTS: u8 = 0x11;
pub const DW_OP_DUP: u8 = 0x12;
pub const DW_OP_DROP: u8 = 0x13;
pub const DW_OP_OVER: u8 = 0x14;
pub const DW_OP_PICK: u8 = 0x15;
pub const DW_OP_SWAP: u8 = 0x16;
pub const DW_OP_ROT: u8 = 0x17;
pub const DW_OP_XDEREF: u8 = 0x18;
pub const DW_OP_ABS: u8 = 0x19;
pub const DW_OP_AND: u8 = 0x1A;
pub const DW_OP_DIV: u8 = 0x1B;
pub const DW_OP_MINUS: u8 = 0x1C;
pub const DW_OP_MOD: u8 = 0x1D;
pub const DW_OP_MUL: u8 = 0x1E;
pub const DW_OP_NEG: u8 = 0x1F;
pub const DW_OP_NOT: u8 = 0x20;
pub const DW_OP_OR: u8 = 0x21;
pub const DW_OP_PLUS: u8 = 0x22;
pub const DW_OP_PLUS_UCONST: u8 = 0x23;
pub const DW_OP_SHL: u8 = 0x24;
pub const DW_OP_SHR: u8 = 0x25;
pub const DW_OP_SHRA: u8 = 0x26;
pub const DW_OP_XOR: u8 = 0x27;
pub const DW_OP_BRA: u8 = 0x28;
pub const DW_OP_EQ: u8 = 0x29;
pub const DW_OP_GE: u8 = 0x2A;
pub const DW_OP_GT: u8 = 0x2B;
pub const DW_OP_LE: u8 = 0x2C;
pub const DW_OP_LT: u8 = 0x2D;
pub const DW_OP_NE: u8 = 0x2E;
pub const DW_OP_SKIP: u8 = 0x2F;
pub const DW_OP_LIT0: u8 = 0x30;
pub const DW_OP_LIT31: u8 = 0x4F;
pub const DW_OP_REG0: u8 = 0x50;
pub const DW_OP_REG31: u8 = 0x6F;
pub const DW_OP_BREG0: u8 = 0x70;
pub const DW_OP_BREG31: u8 = 0x8F;
pub const DW_OP_REGX: u8 = 0x90;
pub const DW_OP_BREGX: u8 = 0x92;
pub const DW_OP_DEREF_SIZE: u8 = 0x94;

} // verus!

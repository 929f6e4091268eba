use unwinder::dwarf::expression::evaluate;
use unwinder::dwarf::DwarfError;
use unwinder::mem::Memory;
use unwinder::registers::{Arch, Registers, UNW_X86_64_RSP};

fn expr_memory(at: u64, ops: &[u8]) -> Memory {
    let mut bytes = vec![ops.len() as u8]; // ULEB128 length prefix
    bytes.extend_from_slice(ops);
    let mut m = Memory::new();
    m.add_segment(at, bytes);
    m
}

#[test]
fn test_evaluate_arithmetic() {
    let regs = Registers::new(Arch::X64);
    // const1u 42; lit1; plus
    let m = expr_memory(0x100, &[0x08, 42, 0x31, 0x22]);
    assert_eq!(evaluate(&m, &regs, 0x100, 0).unwrap(), 43);
    // lit16; lit4; minus
    let m = expr_memory(0x100, &[0x40, 0x34, 0x1c]);
    assert_eq!(evaluate(&m, &regs, 0x100, 0).unwrap(), 12);
    // const1s -2; lit6; mul (wrapping through the bit pattern)
    let m = expr_memory(0x100, &[0x09, 0xfe, 0x36, 0x1e]);
    assert_eq!(evaluate(&m, &regs, 0x100, 0).unwrap() as i64, -12);
    // lit12; lit5; div (signed truncating division)
    let m = expr_memory(0x100, &[0x3c, 0x35, 0x1b]);
    assert_eq!(evaluate(&m, &regs, 0x100, 0).unwrap(), 2);
}

#[test]
fn test_evaluate_registers_and_stack_ops() {
    let mut regs = Registers::new(Arch::X64);
    regs.set(UNW_X86_64_RSP, 0x8000);
    // breg7 +16: the register's value plus a signed offset.
    let m = expr_memory(0x100, &[0x77, 0x10]);
    assert_eq!(evaluate(&m, &regs, 0x100, 0).unwrap(), 0x8010);
    // The initially pushed value is the implicit operand: lit8; plus.
    let m = expr_memory(0x100, &[0x38, 0x22]);
    assert_eq!(evaluate(&m, &regs, 0x100, 0x20).unwrap(), 0x28);
    // dup; plus doubles the initial value.
    let m = expr_memory(0x100, &[0x12, 0x22]);
    assert_eq!(evaluate(&m, &regs, 0x100, 21).unwrap(), 42);
    // swap leaves the second-from-top on top: lit1; swap.
    let m = expr_memory(0x100, &[0x31, 0x16]);
    assert_eq!(evaluate(&m, &regs, 0x100, 7).unwrap(), 7);
}

#[test]
fn test_evaluate_deref_and_branch() {
    let regs = Registers::new(Arch::X64);
    // const2u 0x9000; deref
    let mut m = expr_memory(0x100, &[0x0a, 0x00, 0x90, 0x06]);
    m.add_segment(0x9000, 77u64.to_le_bytes().to_vec());
    assert_eq!(evaluate(&m, &regs, 0x100, 0).unwrap(), 77);
    // lit1; bra +1 (skip the next byte); lit0 skipped; lit5
    let m = expr_memory(0x100, &[0x31, 0x28, 0x01, 0x00, 0x30, 0x35]);
    assert_eq!(evaluate(&m, &regs, 0x100, 9).unwrap(), 5);
}

#[test]
fn test_evaluate_errors() {
    let regs = Registers::new(Arch::X64);
    // An undefined opcode.
    let m = expr_memory(0x100, &[0x00]);
    assert_eq!(
        evaluate(&m, &regs, 0x100, 0),
        Err(DwarfError::InvalidExpression(0))
    );
    // A deref size other than 1, 2, 4 or 8.
    let m = expr_memory(0x100, &[0x30, 0x94, 0x03]);
    assert_eq!(
        evaluate(&m, &regs, 0x100, 0),
        Err(DwarfError::InvalidExpressionDerefSize(3))
    );
    // A register number the bank does not hold.
    let m = expr_memory(0x100, &[0x90, 0xc8, 0x01]);
    assert_eq!(
        evaluate(&m, &regs, 0x100, 0),
        Err(DwarfError::InvalidExpressionRegisterNumber(200))
    );
    // Division by zero.
    let m = expr_memory(0x100, &[0x3c, 0x30, 0x1b]);
    assert_eq!(
        evaluate(&m, &regs, 0x100, 0),
        Err(DwarfError::InvalidExpression(0x1b))
    );
    // Popping more than was pushed.
    let m = expr_memory(0x100, &[0x13, 0x13]);
    assert_eq!(
        evaluate(&m, &regs, 0x100, 0),
        Err(DwarfError::InvalidExpression(0x13))
    );
}

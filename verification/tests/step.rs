use unwinder::dwarf::cfi::FrameDescriptionEntry;
use unwinder::dwarf::instruction::{get_saved_register, run, RegisterLocation, RegisterSavedWhere};
use unwinder::dwarf::{step_with_fde, DwarfError};
use unwinder::mem::Memory;
use unwinder::registers::{Arch, Registers, UNW_ARM64_LR, UNW_X86_64_RBP, UNW_X86_64_RBX, UNW_X86_64_RSP};

fn memory_with(start: u64, bytes: Vec<u8>) -> Memory {
    let mut m = Memory::new();
    m.add_segment(start, bytes);
    m
}

fn build_cie(instrs: &[u8]) -> Vec<u8> {
    let mut content = vec![
        0, 0, 0, 0, 1, 0x7a, 0x52, 0x00, 0x01, 0x78, 16, 0x01, 0x04,
    ];
    content.extend_from_slice(instrs);
    let mut out = (content.len() as u32).to_le_bytes().to_vec();
    out.extend(content);
    out
}

fn build_fde(fde_addr: u64, cie_addr: u64, pc_start: u64, pc_range: u64, instrs: &[u8]) -> Vec<u8> {
    let mut content = Vec::new();
    let cie_ptr = (fde_addr + 4 - cie_addr) as u32;
    content.extend(cie_ptr.to_le_bytes());
    content.extend(pc_start.to_le_bytes());
    content.extend(pc_range.to_le_bytes());
    content.push(0x00);
    content.extend_from_slice(instrs);
    let mut out = (content.len() as u32).to_le_bytes().to_vec();
    out.extend(content);
    out
}

// The standard x86_64 frame: CFA is rsp + 8, the return address saved at
// CFA - 8, i.e. at the old stack pointer.
fn frame_memory(eh_frame: u64, cie_instrs: &[u8], fde_instrs: &[u8]) -> (Memory, u64) {
    let cie_bytes = build_cie(cie_instrs);
    let fde_addr = eh_frame + cie_bytes.len() as u64;
    let fde_bytes = build_fde(fde_addr, eh_frame, 0x400100, 0x100, fde_instrs);
    let mut all = cie_bytes;
    all.extend(fde_bytes);
    all.extend([0u8, 0, 0, 0]);
    (memory_with(eh_frame, all), fde_addr)
}

#[test]
fn test_step_restores_parent_frame() {
    let eh_frame = 0x10000u64;
    // def_cfa(rsp, 8); offset(r16, 1): return address at CFA - 8.
    let (mut m, fde_addr) = frame_memory(eh_frame, &[0x0c, 0x07, 0x08, 0x90, 0x01], &[]);
    let ra = 0x401234u64;
    m.add_segment(0x8000, ra.to_le_bytes().to_vec());

    let (fde, cie) = FrameDescriptionEntry::decode(&m, fde_addr).unwrap();
    let mut regs = Registers::new(Arch::X64);
    regs.set(UNW_X86_64_RSP, 0x8000);
    regs.set(UNW_X86_64_RBX, 0xAAAA);
    regs.set_pc(0x400150);

    step_with_fde(&m, 0x400150, &fde, &cie, &mut regs).unwrap();
    // The parent frame: PC is the saved return address, SP the CFA, and
    // registers with no rule keep their values.
    assert_eq!(regs.pc(), ra);
    assert_eq!(regs.sp(), 0x8008);
    assert_eq!(regs.get(UNW_X86_64_RBX), 0xAAAA);
}

#[test]
fn test_step_with_saved_register() {
    let eh_frame = 0x10000u64;
    // Also restore rbx (r3), saved at CFA - 16.
    let (mut m, fde_addr) = frame_memory(
        eh_frame,
        &[0x0c, 0x07, 0x08, 0x90, 0x01],
        &[0x83, 0x02], // offset(r3, 2): rbx at CFA - 16
    );
    let ra = 0x401234u64;
    let rbx = 0xBBBBu64;
    let mut stack = rbx.to_le_bytes().to_vec(); // 0x7ff8: CFA - 16
    stack.extend(ra.to_le_bytes()); // 0x8000: CFA - 8
    m.add_segment(0x7ff8, stack);

    let (fde, cie) = FrameDescriptionEntry::decode(&m, fde_addr).unwrap();
    let mut regs = Registers::new(Arch::X64);
    regs.set(UNW_X86_64_RSP, 0x8000);
    regs.set_pc(0x400150);
    step_with_fde(&m, 0x400150, &fde, &cie, &mut regs).unwrap();
    assert_eq!(regs.pc(), ra);
    assert_eq!(regs.sp(), 0x8008);
    assert_eq!(regs.get(UNW_X86_64_RBX), rbx);
}

#[test]
fn test_step_expression_cfa() {
    let eh_frame = 0x10000u64;
    // The CFA is given by the expression "breg7 + 16" instead of a
    // register-plus-offset rule.
    let (mut m, fde_addr) = frame_memory(
        eh_frame,
        &[
            0x0f, 0x02, 0x77, 0x10, // def_cfa_expression, length 2: breg7 +16
            0x90, 0x01, // offset(r16, 1): return address at CFA - 8
        ],
        &[],
    );
    let ra = 0x401234u64;
    m.add_segment(0x8008, ra.to_le_bytes().to_vec());

    let (fde, cie) = FrameDescriptionEntry::decode(&m, fde_addr).unwrap();
    let mut regs = Registers::new(Arch::X64);
    regs.set(UNW_X86_64_RSP, 0x8000);
    regs.set_pc(0x400150);

    let mut regs2 = regs;
    step_with_fde(&m, 0x400150, &fde, &cie, &mut regs).unwrap();
    assert_eq!(regs.sp(), 0x8010);
    assert_eq!(regs.pc(), ra);

    // Stepping the same frame again from the same snapshot yields the same
    // parent: the step is a function of its inputs.
    step_with_fde(&m, 0x400150, &fde, &cie, &mut regs2).unwrap();
    assert_eq!(regs2.pc(), regs.pc());
    assert_eq!(regs2.sp(), regs.sp());
}

#[test]
fn test_step_corrupted_stack() {
    let eh_frame = 0x10000u64;
    let (m, fde_addr) = frame_memory(eh_frame, &[0x0c, 0x07, 0x08, 0x90, 0x01], &[]);
    // No stack bytes captured: the saved return-address slot is unreadable.
    let (fde, cie) = FrameDescriptionEntry::decode(&m, fde_addr).unwrap();
    let mut regs = Registers::new(Arch::X64);
    regs.set(UNW_X86_64_RSP, 0x8000);
    regs.set_pc(0x400150);
    let before = regs;
    assert_eq!(
        step_with_fde(&m, 0x400150, &fde, &cie, &mut regs),
        Err(DwarfError::UnreadableAddress(0x8000))
    );
    // A failed step leaves the register bank untouched.
    assert_eq!(regs.pc(), before.pc());
    assert_eq!(regs.sp(), before.sp());
}

#[test]
fn test_remember_restore_is_noop() {
    let eh_frame = 0x10000u64;
    // Two FDE programs that differ only by a remember/restore pair.
    let (m1, fde1) = frame_memory(
        eh_frame,
        &[0x0c, 0x07, 0x08],
        &[0x0a, 0x0b, 0x86, 0x02], // remember_state; restore_state; offset(r6, 2)
    );
    let (m2, fde2) = frame_memory(eh_frame, &[0x0c, 0x07, 0x08], &[0x86, 0x02]);
    let (f1, c1) = FrameDescriptionEntry::decode(&m1, fde1).unwrap();
    let (f2, c2) = FrameDescriptionEntry::decode(&m2, fde2).unwrap();
    let i1 = run(&m1, Arch::X64, 0x400150, &f1, &c1).unwrap();
    let i2 = run(&m2, Arch::X64, 0x400150, &f2, &c2).unwrap();
    assert_eq!(i1.cfa_register, i2.cfa_register);
    assert_eq!(i1.cfa_register_offset, i2.cfa_register_offset);
    assert_eq!(
        i1.saved_registers[UNW_X86_64_RBP].location,
        i2.saved_registers[UNW_X86_64_RBP].location
    );
    assert_eq!(
        i1.saved_registers[UNW_X86_64_RBP].value,
        i2.saved_registers[UNW_X86_64_RBP].value
    );
    assert!(matches!(
        i1.saved_registers[UNW_X86_64_RBP].location,
        RegisterSavedWhere::InCFA
    ));
    assert_eq!(i1.saved_registers[UNW_X86_64_RBP].value, -16);
}

#[test]
fn test_interpreter_errors() {
    let eh_frame = 0x10000u64;

    // restore_state with no remembered state.
    let (m, fde_addr) = frame_memory(eh_frame, &[0x0c, 0x07, 0x08], &[0x0b]);
    let (fde, cie) = FrameDescriptionEntry::decode(&m, fde_addr).unwrap();
    assert!(matches!(
        run(&m, Arch::X64, 0x400150, &fde, &cie),
        Err(DwarfError::NoRememberState)
    ));

    // A register number above the table's maximum.
    let (m, fde_addr) = frame_memory(eh_frame, &[0x0c, 0x07, 0x08], &[0x05, 0xac, 0x02, 0x00]);
    let (fde, cie) = FrameDescriptionEntry::decode(&m, fde_addr).unwrap();
    assert!(matches!(
        run(&m, Arch::X64, 0x400150, &fde, &cie),
        Err(DwarfError::InvalidRegisterNumber(300))
    ));

    // An undefined instruction byte.
    let (m, fde_addr) = frame_memory(eh_frame, &[0x0c, 0x07, 0x08], &[0x3f]);
    let (fde, cie) = FrameDescriptionEntry::decode(&m, fde_addr).unwrap();
    assert!(matches!(
        run(&m, Arch::X64, 0x400150, &fde, &cie),
        Err(DwarfError::InvalidInstruction(0))
    ));

    // No way to calculate the CFA: no def_cfa rule at all.
    let (m, fde_addr) = frame_memory(eh_frame, &[], &[]);
    let (fde, cie) = FrameDescriptionEntry::decode(&m, fde_addr).unwrap();
    let info = run(&m, Arch::X64, 0x400150, &fde, &cie).unwrap();
    let regs = Registers::new(Arch::X64);
    assert_eq!(info.cfa(&m, &regs), Err(DwarfError::NoWayToCalculateCfa));

    // A CFA base register the bank does not hold.
    let (m, fde_addr) = frame_memory(eh_frame, &[0x0c, 0xc8, 0x01, 0x00], &[]);
    let (fde, cie) = FrameDescriptionEntry::decode(&m, fde_addr).unwrap();
    let info = run(&m, Arch::X64, 0x400150, &fde, &cie).unwrap();
    assert_eq!(
        info.cfa(&m, &regs),
        Err(DwarfError::InvalidCfaRegisterNumber(200))
    );
}

#[test]
fn test_step_leaf_frame_aarch64() {
    // A leaf frame on aarch64: the CIE names x30 as the return-address
    // register and no rule restores it, so the return address is still
    // live in the link register.
    let eh_frame = 0x10000u64;
    let mut content = vec![
        0, 0, 0, 0, 1, 0x7a, 0x52, 0x00, 0x01, 0x78, 30, 0x01, 0x04,
        0x0c, 0x1f, 0x00, // def_cfa(sp, 0)
    ];
    let mut cie_bytes = (content.len() as u32).to_le_bytes().to_vec();
    cie_bytes.append(&mut content);
    let fde_addr = eh_frame + cie_bytes.len() as u64;
    let fde_bytes = build_fde(fde_addr, eh_frame, 0x400100, 0x100, &[]);
    let mut all = cie_bytes;
    all.extend(fde_bytes);
    let m = memory_with(eh_frame, all);

    let (fde, cie) = FrameDescriptionEntry::decode(&m, fde_addr).unwrap();
    assert_eq!(cie.return_address_register, 30);
    let mut regs = Registers::new(Arch::Aarch64);
    regs.set_sp(0x9000);
    regs.set(UNW_ARM64_LR, 0x400fff);
    regs.set_pc(0x400150);
    step_with_fde(&m, 0x400150, &fde, &cie, &mut regs).unwrap();
    // No memory was needed: the step reads nothing but registers.
    assert_eq!(regs.pc(), 0x400fff);
    assert_eq!(regs.sp(), 0x9000);
}

fn build_arm64_cie(ra_register: u8, instrs: &[u8]) -> Vec<u8> {
    let mut content = vec![
        0, 0, 0, 0, 1, 0x7a, 0x52, 0x00, 0x01, 0x78, ra_register, 0x01, 0x04,
    ];
    content.extend_from_slice(instrs);
    let mut out = (content.len() as u32).to_le_bytes().to_vec();
    out.extend(content);
    out
}

fn arm64_frame_memory(eh_frame: u64, ra_register: u8, fde_instrs: &[u8]) -> (Memory, u64) {
    let cie_bytes = build_arm64_cie(ra_register, &[0x0c, 0x1f, 0x00]);
    let fde_addr = eh_frame + cie_bytes.len() as u64;
    let fde_bytes = build_fde(fde_addr, eh_frame, 0x400100, 0x100, fde_instrs);
    let mut all = cie_bytes;
    all.extend(fde_bytes);
    (memory_with(eh_frame, all), fde_addr)
}

#[test]
fn test_step_signed_return_address_rejected() {
    // An aarch64 frame whose return address is signed (negate_ra_state)
    // cannot be authenticated here; the step reports it instead of
    // resuming through an unverified address.
    let eh_frame = 0x10000u64;
    let (m, fde_addr) = arm64_frame_memory(eh_frame, 30, &[0x2d]);
    let (fde, cie) = FrameDescriptionEntry::decode(&m, fde_addr).unwrap();
    let mut regs = Registers::new(Arch::Aarch64);
    regs.set_sp(0x9000);
    regs.set(UNW_ARM64_LR, 0x400fff);
    regs.set_pc(0x400150);
    assert_eq!(
        step_with_fde(&m, 0x400150, &fde, &cie, &mut regs),
        Err(DwarfError::UnimplementedRaSignState)
    );
}

#[test]
fn test_step_invalid_return_address_register() {
    // A CIE naming a reserved register number as the return-address
    // register is rejected when the leaf path would read it.
    let eh_frame = 0x10000u64;
    let (m, fde_addr) = arm64_frame_memory(eh_frame, 40, &[]);
    let (fde, cie) = FrameDescriptionEntry::decode(&m, fde_addr).unwrap();
    let mut regs = Registers::new(Arch::Aarch64);
    regs.set_sp(0x9000);
    regs.set_pc(0x400150);
    assert_eq!(
        step_with_fde(&m, 0x400150, &fde, &cie, &mut regs),
        Err(DwarfError::InvalidReturnAddressRegisterNumber(40))
    );
}

#[test]
fn test_get_saved_register_rules() {
    let m = memory_with(0x9000, 77u64.to_le_bytes().to_vec());
    let mut regs = Registers::new(Arch::X64);
    regs.set(3, 0x1234);
    let cfa = 0x9010u64;
    // A value saved in the frame is loaded from CFA plus the offset.
    let rule = RegisterLocation {
        location: RegisterSavedWhere::InCFA,
        initial_state_saved: false,
        value: -16,
    };
    assert_eq!(get_saved_register(&m, &regs, rule, cfa).unwrap(), 77);
    // A CFA-relative value is the address itself, not a load.
    let rule = RegisterLocation {
        location: RegisterSavedWhere::OffsetFromCFA,
        initial_state_saved: false,
        value: -16,
    };
    assert_eq!(get_saved_register(&m, &regs, rule, cfa).unwrap(), 0x9000);
    // A register-indirect rule reads the named source register.
    let rule = RegisterLocation {
        location: RegisterSavedWhere::InRegister,
        initial_state_saved: false,
        value: 3,
    };
    assert_eq!(get_saved_register(&m, &regs, rule, cfa).unwrap(), 0x1234);
    // An undefined register recovers as zero.
    let rule = RegisterLocation {
        location: RegisterSavedWhere::Undefined,
        initial_state_saved: false,
        value: 0,
    };
    assert_eq!(get_saved_register(&m, &regs, rule, cfa).unwrap(), 0);
    // A rule that names nothing cannot be applied.
    let rule = RegisterLocation {
        location: RegisterSavedWhere::Unused,
        initial_state_saved: false,
        value: 0,
    };
    assert_eq!(
        get_saved_register(&m, &regs, rule, cfa),
        Err(DwarfError::InvalidRegisterLocation)
    );
}

use unwinder::compact::{
    aarch64, unwind_info_compressed_entry_encoding_index, unwind_info_compressed_entry_func_offset,
    x64, UnwindFuncInfo,
};
use unwinder::dyld::DyldUnwindSections;
use unwinder::mem::Memory;
use unwinder::registers::{
    Arch, Registers, UNW_ARM64_FP, UNW_X86_64_RBP, UNW_X86_64_RBX, UNW_X86_64_RSP,
};

fn memory_with(start: u64, bytes: Vec<u8>) -> Memory {
    let mut m = Memory::new();
    m.add_segment(start, bytes);
    m
}

fn no_sections() -> DyldUnwindSections {
    DyldUnwindSections {
        mach_header: 0,
        dwarf_section: 0,
        dwarf_section_length: 0,
        compact_unwind_section: 0,
        compact_unwind_section_length: 0,
    }
}

#[test]
fn test_compressed_entry_fields() {
    let entry = 0xAB123456u32;
    assert_eq!(unwind_info_compressed_entry_func_offset(entry), 0x123456);
    assert_eq!(unwind_info_compressed_entry_encoding_index(entry), 0xAB);
}

#[test]
fn test_arm64_frame_step() {
    // A standard aarch64 frame: fp points at the saved fp/lr pair, with the
    // x19/x20 pair saved just below it.
    let encoding = 0x04000000u32 | 0x1; // FRAME | X19_X20 pair
    let fp = 0x7000u64;
    let old_fp = 0x7100u64;
    let ra = 0x400abcu64;
    let x19 = 0x1111u64;
    let x20 = 0x2222u64;
    // Layout: [fp-16] = x20, [fp-8] = x19, [fp] = old fp, [fp+8] = ra.
    let mut bytes = x20.to_le_bytes().to_vec();
    bytes.extend(x19.to_le_bytes());
    bytes.extend(old_fp.to_le_bytes());
    bytes.extend(ra.to_le_bytes());
    let m = memory_with(fp - 16, bytes);

    let mut regs = Registers::new(Arch::Aarch64);
    regs.set(UNW_ARM64_FP, fp);
    let info = UnwindFuncInfo { start: 0x400000, end: 0x401000, encoding };
    assert_eq!(aarch64::step(&m, &mut regs, info, no_sections()).unwrap(), true);
    assert_eq!(regs.pc(), ra);
    assert_eq!(regs.sp(), fp + 16);
    assert_eq!(regs.get(UNW_ARM64_FP), old_fp);
    assert_eq!(regs.get(19), x19);
    assert_eq!(regs.get(20), x20);
}

#[test]
fn test_arm64_frameless_step() {
    // A frameless leaf frame: the stack size is encoded in 16-byte units
    // and the return address stays in the link register.
    let encoding = 0x02000000u32 | (2 << 12); // FRAMELESS, stack size 32
    let sp = 0x8000u64;
    let lr = 0x400defu64;
    let m = Memory::new();
    let mut regs = Registers::new(Arch::Aarch64);
    regs.set_sp(sp);
    regs.set(30, lr);
    let info = UnwindFuncInfo { start: 0x400000, end: 0x401000, encoding };
    assert_eq!(aarch64::step(&m, &mut regs, info, no_sections()).unwrap(), true);
    assert_eq!(regs.pc(), lr);
    assert_eq!(regs.sp(), sp + 32);

    // A DWARF-delegating encoding asks the caller to use the DWARF engine.
    let mut regs = Registers::new(Arch::Aarch64);
    let info = UnwindFuncInfo { start: 0, end: 0, encoding: 0x03000000 };
    assert_eq!(aarch64::step(&m, &mut regs, info, no_sections()).unwrap(), false);
}

#[test]
fn test_x64_rbp_frame_step() {
    // rbp-framed function with rbx saved one slot below the frame offset.
    let encoding = 0x01000000u32 | (1 << 16) | 1; // RBP_FRAME, offset 1, slot0 = rbx
    let rbp = 0x7000u64;
    let old_rbp = 0x7200u64;
    let ra = 0x400123u64;
    let rbx = 0x3333u64;
    // Layout: [rbp-8] = rbx, [rbp] = old rbp, [rbp+8] = ra.
    let mut bytes = rbx.to_le_bytes().to_vec();
    bytes.extend(old_rbp.to_le_bytes());
    bytes.extend(ra.to_le_bytes());
    let m = memory_with(rbp - 8, bytes);

    let mut regs = Registers::new(Arch::X64);
    regs.set(UNW_X86_64_RBP, rbp);
    let info = UnwindFuncInfo { start: 0x400000, end: 0x401000, encoding };
    assert_eq!(x64::step(&m, &mut regs, info, no_sections()).unwrap(), true);
    assert_eq!(regs.pc(), ra);
    assert_eq!(regs.sp(), rbp + 16);
    assert_eq!(regs.get(UNW_X86_64_RBP), old_rbp);
    assert_eq!(regs.get(UNW_X86_64_RBX), rbx);
}

#[test]
fn test_x64_frameless_step() {
    // A frameless function with a 16-byte immediate frame and no saved
    // registers: the return address sits at the top of the frame.
    let encoding = 0x02000000u32 | (2 << 16); // STACK_IMMD, stack size 2 * 8
    let rsp = 0x8000u64;
    let ra = 0x400456u64;
    let m = memory_with(rsp + 8, ra.to_le_bytes().to_vec());
    let mut regs = Registers::new(Arch::X64);
    regs.set(UNW_X86_64_RSP, rsp);
    let info = UnwindFuncInfo { start: 0x400000, end: 0x401000, encoding };
    assert_eq!(x64::step(&m, &mut regs, info, no_sections()).unwrap(), true);
    assert_eq!(regs.pc(), ra);
    assert_eq!(regs.sp(), rsp + 16);
}

#[test]
fn test_x64_frameless_step_with_permutation() {
    // Two saved registers; permutation 0 names rbx then r12 (the first two
    // unused compact numbers), saved below the return address.
    let encoding = 0x02000000u32 | (3 << 16) | (2 << 10); // 24-byte frame, 2 registers
    let rsp = 0x8000u64;
    let ra = 0x400789u64;
    let rbx = 0x4444u64;
    let r12 = 0x5555u64;
    // The 24-byte frame's save area starts at rsp + 24 - 8 - 16 = rsp:
    // [rsp] = rbx, [rsp+8] = r12, [rsp+16] = return address.
    let mut bytes = rbx.to_le_bytes().to_vec();
    bytes.extend(r12.to_le_bytes());
    bytes.extend(ra.to_le_bytes());
    let m = memory_with(rsp, bytes);
    let mut regs = Registers::new(Arch::X64);
    regs.set(UNW_X86_64_RSP, rsp);
    let info = UnwindFuncInfo { start: 0x400000, end: 0x401000, encoding };
    assert_eq!(x64::step(&m, &mut regs, info, no_sections()).unwrap(), true);
    assert_eq!(regs.pc(), ra);
    assert_eq!(regs.sp(), rsp + 24);
    assert_eq!(regs.get(UNW_X86_64_RBX), rbx);
    assert_eq!(regs.get(12), r12);
}

// A minimal `__unwind_info` section: one level-one entry covering the
// functions, its sentinel successor, and one regular second-level page with
// a single entry.
fn build_unwind_info() -> Vec<u8> {
    let mut bytes = Vec::new();
    bytes.extend(1u32.to_le_bytes()); // version
    bytes.extend(0u32.to_le_bytes()); // common encodings offset (unused)
    bytes.extend(0u32.to_le_bytes()); // common encodings count
    bytes.extend(0u32.to_le_bytes()); // personalities offset (unused)
    bytes.extend(0u32.to_le_bytes()); // personalities count
    bytes.extend(28u32.to_le_bytes()); // index section offset
    bytes.extend(2u32.to_le_bytes()); // index count
    // Level-one entries: {function_offset, second-level page offset, lsda}.
    bytes.extend(0x100u32.to_le_bytes());
    bytes.extend(52u32.to_le_bytes());
    bytes.extend(0u32.to_le_bytes());
    bytes.extend(0x200u32.to_le_bytes()); // sentinel: upper bound only
    bytes.extend(0u32.to_le_bytes());
    bytes.extend(0u32.to_le_bytes());
    // Regular second-level page at offset 52.
    bytes.extend(2u32.to_le_bytes()); // kind: regular
    bytes.extend(8u16.to_le_bytes()); // entry page offset
    bytes.extend(1u16.to_le_bytes()); // entry count
    bytes.extend(0x100u32.to_le_bytes()); // entry: function offset
    bytes.extend(0x04000001u32.to_le_bytes()); // entry: encoding
    bytes
}

#[test]
fn test_find_unwind_func_info() {
    let base = 0x100000u64;
    let section = 0x200000u64;
    let m = memory_with(section, build_unwind_info());

    // A pc inside the covered function finds its range and encoding.
    let info = UnwindFuncInfo::find(&m, base + 0x150, section, base).unwrap();
    assert_eq!(info.start, base + 0x100);
    assert_eq!(info.end, base + 0x200);
    assert_eq!(info.encoding, 0x04000001);

    // A pc at or past the sentinel entry has no unwind info.
    assert!(UnwindFuncInfo::find(&m, base + 0x250, section, base).is_none());

    // An unreadable section yields nothing rather than failing.
    let empty = Memory::new();
    assert!(UnwindFuncInfo::find(&empty, base + 0x150, section, base).is_none());
}

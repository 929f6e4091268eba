use unwinder::cursor::{step_frame_pointer, UnwindCursor};
use unwinder::dwarf::header::EhFrameHeader;
use unwinder::dwarf::DwarfError;
use unwinder::dyld::SectionInfo;
use unwinder::mem::Memory;
use unwinder::registers::{Arch, Registers, UNW_ARM64_FP, UNW_X86_64_RSP};
use unwinder::Error;

fn build_cie(instrs: &[u8]) -> Vec<u8> {
    let mut content = vec![
        0, 0, 0, 0, 1, 0x7a, 0x52, 0x00, 0x01, 0x78, 16, 0x01, 0x04,
    ];
    content.extend_from_slice(instrs);
    let mut out = (content.len() as u32).to_le_bytes().to_vec();
    out.extend(content);
    out
}

fn build_fde(fde_addr: u64, cie_addr: u64, pc_start: u64, pc_range: u64, instrs: &[u8]) -> Vec<u8> {
    let mut content = Vec::new();
    let cie_ptr = (fde_addr + 4 - cie_addr) as u32;
    content.extend(cie_ptr.to_le_bytes());
    content.extend(pc_start.to_le_bytes());
    content.extend(pc_range.to_le_bytes());
    content.push(0x00);
    content.extend_from_slice(instrs);
    let mut out = (content.len() as u32).to_le_bytes().to_vec();
    out.extend(content);
    out
}

// A module image: a CIE with the standard x86_64 frame rules (CFA at
// rsp + 8, return address at CFA - 8), two FDEs covering [0x4000f0,
// 0x400100) and [0x400100, 0x400200), and a sorted `.eh_frame_hdr` table
// naming both.
fn build_module(m: &mut Memory, eh_frame: u64, hdr: u64) -> (u64, u64) {
    let cie_bytes = build_cie(&[0x0c, 0x07, 0x08, 0x90, 0x01]);
    let fde2_addr = eh_frame + cie_bytes.len() as u64;
    let fde2_bytes = build_fde(fde2_addr, eh_frame, 0x4000f0, 0x10, &[]);
    let fde1_addr = fde2_addr + fde2_bytes.len() as u64;
    let fde1_bytes = build_fde(fde1_addr, eh_frame, 0x400100, 0x100, &[]);
    let mut frame = cie_bytes;
    frame.extend(fde2_bytes);
    frame.extend(fde1_bytes);
    frame.extend([0u8, 0, 0, 0]);
    m.add_segment(eh_frame, frame);

    let mut h = vec![1u8, 0x04, 0x04, 0x04]; // version; all fields absolute udata8
    h.extend(eh_frame.to_le_bytes());
    h.extend(2u64.to_le_bytes()); // fde count
    h.extend(0x4000f0u64.to_le_bytes());
    h.extend(fde2_addr.to_le_bytes());
    h.extend(0x400100u64.to_le_bytes());
    h.extend(fde1_addr.to_le_bytes());
    m.add_segment(hdr, h);
    (fde1_addr, fde2_addr)
}

fn module_section(hdr: u64, hdr_len: u64) -> SectionInfo {
    SectionInfo {
        base: 0x400000,
        text: 0x400000,
        text_len: 0x1000,
        eh_frame_hdr: hdr,
        eh_frame_hdr_len: hdr_len,
        max_addr: 0x401000,
    }
}

#[test]
fn test_eh_frame_header_search() {
    let mut m = Memory::new();
    let (fde1_addr, fde2_addr) = build_module(&mut m, 0x10000, 0x20000);
    let hdr = EhFrameHeader::decode(&m, 0x20000, 0x20000 + 0x100).unwrap();
    assert_eq!(hdr.eh_frame, 0x10000);
    assert_eq!(hdr.fde_count, 2);

    // The binary search lands on the FDE covering the target.
    let (fde, _cie) = hdr.search(&m, 0x400150).unwrap();
    assert!(fde.contains(0x400150));
    assert_eq!(fde.fde_start, fde1_addr);
    let (fde, _cie) = hdr.search(&m, 0x4000f8).unwrap();
    assert_eq!(fde.fde_start, fde2_addr);

    // A pc outside every FDE's range is not found.
    assert_eq!(hdr.search(&m, 0x400300), Err(DwarfError::FDENotFound));
}

#[test]
fn test_eh_frame_header_errors() {
    // A header version other than 1.
    let mut m = Memory::new();
    m.add_segment(0x20000, vec![2, 0x04, 0x04, 0x04]);
    assert_eq!(
        EhFrameHeader::decode(&m, 0x20000, 0x20100),
        Err(DwarfError::InvalidHeaderVersion(2))
    );
    // A table encoding whose entry width is unsupported.
    let hdr = EhFrameHeader {
        start: 0x20000,
        end: 0x20100,
        eh_frame: 0x10000,
        fde_count: 1,
        table: 0x20010,
        table_enc: 0x01,
    };
    assert_eq!(
        hdr.search(&m, 0x400150),
        Err(DwarfError::InvalidPointerEncodingSize(0x01))
    );
}

#[test]
fn test_unwind_cursor() {
    let mut m = Memory::new();
    build_module(&mut m, 0x10000, 0x20000);
    // The sampled thread: pc in the first function, the return address
    // 0x400100 on the stack; one frame up, the return address is 0, the
    // root marker.
    let mut stack = 0x400100u64.to_le_bytes().to_vec();
    stack.extend(0u64.to_le_bytes());
    m.add_segment(0x8000, stack);

    let mut regs = Registers::new(Arch::X64);
    regs.set(UNW_X86_64_RSP, 0x8000);
    regs.set_pc(0x400150);

    let mut cursor = UnwindCursor::new(vec![module_section(0x20000, 0x100)]);
    // First step: the pc is used as it stands.
    assert_eq!(cursor.step(&m, &mut regs).unwrap(), true);
    assert_eq!(regs.pc(), 0x400100);
    assert_eq!(regs.sp(), 0x8008);
    // Second step: the pc is a return address; the lookup uses pc - 1,
    // which lands in the previous function's FDE.
    assert_eq!(cursor.step(&m, &mut regs).unwrap(), true);
    assert_eq!(regs.pc(), 0);
    assert_eq!(regs.sp(), 0x8010);
    // A zero pc is the root of the stack.
    assert_eq!(cursor.step(&m, &mut regs).unwrap(), false);
}

#[test]
fn test_cursor_zero_pc_reads_nothing() {
    // With a zero pc the step reports the stack's root at once: no memory
    // image is consulted and the registers are untouched.
    let m = Memory::new();
    let mut regs = Registers::new(Arch::X64);
    regs.set(UNW_X86_64_RSP, 0x8000);
    let before = regs;
    let mut cursor = UnwindCursor::new(vec![module_section(0x20000, 0x100)]);
    assert_eq!(cursor.step(&m, &mut regs).unwrap(), false);
    assert_eq!(regs.pc(), before.pc());
    assert_eq!(regs.sp(), before.sp());
}

#[test]
fn test_cursor_first_step_not_decremented() {
    let mut m = Memory::new();
    build_module(&mut m, 0x10000, 0x20000);
    // 0x400200 is one past the last FDE's range. On a first step the pc is
    // looked up as it stands, so nothing covers it and the walk ends; a
    // decremented lookup would have found the FDE.
    let mut regs = Registers::new(Arch::X64);
    regs.set(UNW_X86_64_RSP, 0x8000);
    regs.set_pc(0x400200);
    let mut cursor = UnwindCursor::new(vec![module_section(0x20000, 0x100)]);
    assert_eq!(cursor.step(&m, &mut regs).unwrap(), false);
}

#[test]
fn test_cursor_pc_outside_modules() {
    let m = Memory::new();
    let mut regs = Registers::new(Arch::X64);
    regs.set_pc(0x900000);
    let mut cursor = UnwindCursor::new(vec![module_section(0x20000, 0x100)]);
    assert_eq!(cursor.step(&m, &mut regs).unwrap(), false);
}

#[test]
fn test_step_frame_pointer() {
    // The macOS/aarch64 strategy: chase the frame-pointer chain.
    let fp = 0x7000u64;
    let old_fp = 0x7100u64;
    let ra = 0x400abcu64;
    let mut bytes = old_fp.to_le_bytes().to_vec();
    bytes.extend(ra.to_le_bytes());
    let mut m = Memory::new();
    m.add_segment(fp, bytes);

    let mut regs = Registers::new(Arch::Aarch64);
    regs.set(UNW_ARM64_FP, fp);
    assert_eq!(step_frame_pointer(&m, &mut regs).unwrap(), true);
    assert_eq!(regs.pc(), ra);
    assert_eq!(regs.get(UNW_ARM64_FP), old_fp);

    // A zero frame pointer is the chain's root.
    let mut regs = Registers::new(Arch::Aarch64);
    assert_eq!(step_frame_pointer(&m, &mut regs).unwrap(), false);

    // An unreadable frame pointer slot is reported, not dereferenced.
    let mut regs = Registers::new(Arch::Aarch64);
    regs.set(UNW_ARM64_FP, 0x9000);
    assert_eq!(
        step_frame_pointer(&m, &mut regs),
        Err(Error::Dwarf(DwarfError::UnreadableAddress(0x9008)))
    );
}

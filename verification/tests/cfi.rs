use unwinder::dwarf::cfi::{CommonInformationEntry, Entries, FrameDescriptionEntry, scan, CfiEntry};
use unwinder::dwarf::DwarfError;
use unwinder::mem::Memory;

fn memory_with(start: u64, bytes: Vec<u8>) -> Memory {
    let mut m = Memory::new();
    m.add_segment(start, bytes);
    m
}

// A version-1 CIE with augmentation "zR", code alignment 1, data alignment
// -8, return-address register 16 and absolute 8-byte pointer encoding.
fn build_cie(instrs: &[u8]) -> Vec<u8> {
    let mut content = vec![
        0, 0, 0, 0, // CIE id
        1, // version
        0x7a, 0x52, 0x00, // augmentation "zR"
        0x01, // code alignment factor 1
        0x78, // data alignment factor -8
        16, // return-address register
        0x01, // augmentation data length
        0x04, // FDE pointer encoding: absolute udata8
    ];
    content.extend_from_slice(instrs);
    let mut out = (content.len() as u32).to_le_bytes().to_vec();
    out.extend(content);
    out
}

fn build_fde(fde_addr: u64, cie_addr: u64, pc_start: u64, pc_range: u64, instrs: &[u8]) -> Vec<u8> {
    let mut content = Vec::new();
    let cie_ptr = (fde_addr + 4 - cie_addr) as u32;
    content.extend(cie_ptr.to_le_bytes());
    content.extend(pc_start.to_le_bytes());
    content.extend(pc_range.to_le_bytes());
    content.push(0x00); // augmentation data length
    content.extend_from_slice(instrs);
    let mut out = (content.len() as u32).to_le_bytes().to_vec();
    out.extend(content);
    out
}

#[test]
fn test_cie_decode() {
    let base = 0x10000u64;
    let cie_bytes = build_cie(&[0x0c, 0x07, 0x08, 0x90, 0x01]);
    let total = cie_bytes.len() as u64;
    let m = memory_with(base, cie_bytes);
    let cie = CommonInformationEntry::decode(&m, base).unwrap();
    assert_eq!(cie.cie_start, base);
    assert_eq!(cie.cie_length, total);
    assert_eq!(cie.pointer_encoding, 0x04);
    assert_eq!(cie.code_align_factor, 1);
    assert_eq!(cie.data_align_factor, -8);
    assert_eq!(cie.return_address_register, 16);
    assert!(cie.fdes_have_augmentation_data);
    assert!(!cie.is_signal_frame);
    // The initial instructions start right after the augmentation data.
    assert_eq!(cie.cie_instructions, base + total - 5);
}

#[test]
fn test_cie_errors() {
    let base = 0x10000u64;
    // Zero length.
    let m = memory_with(base, vec![0, 0, 0, 0]);
    assert_eq!(
        CommonInformationEntry::decode(&m, base),
        Err(DwarfError::CIEZeroLength)
    );
    // A non-zero CIE id.
    let m = memory_with(base, vec![4, 0, 0, 0, 9, 0, 0, 0]);
    assert_eq!(
        CommonInformationEntry::decode(&m, base),
        Err(DwarfError::CIEIdIsNotZero)
    );
    // A version other than 1 or 3.
    let m = memory_with(base, vec![5, 0, 0, 0, 0, 0, 0, 0, 7]);
    assert_eq!(
        CommonInformationEntry::decode(&m, base),
        Err(DwarfError::CIEInvalidVersion(7))
    );
}

#[test]
fn test_cie_length_escape() {
    // A length field of 0xffffffff announces a 64-bit length.
    let base = 0x10000u64;
    let mut cie_bytes = build_cie(&[]);
    // Rebuild with the escape: content is everything after the 4-byte length.
    let content = cie_bytes.split_off(4);
    let mut bytes = vec![0xff, 0xff, 0xff, 0xff];
    bytes.extend((content.len() as u64).to_le_bytes());
    bytes.extend(content.clone());
    let total = bytes.len() as u64;
    let m = memory_with(base, bytes);
    let cie = CommonInformationEntry::decode(&m, base).unwrap();
    assert_eq!(cie.cie_length, total);
    assert_eq!(cie.return_address_register, 16);
}

#[test]
fn test_fde_decode_and_contains() {
    let base = 0x10000u64;
    let cie_bytes = build_cie(&[0x0c, 0x07, 0x08]);
    let fde_addr = base + cie_bytes.len() as u64;
    let fde_bytes = build_fde(fde_addr, base, 0x400100, 0x100, &[]);
    let mut all = cie_bytes;
    all.extend(fde_bytes);
    let m = memory_with(base, all);
    let (fde, cie) = FrameDescriptionEntry::decode(&m, fde_addr).unwrap();
    assert_eq!(cie.cie_start, base);
    assert_eq!(fde.pc_start, 0x400100);
    assert_eq!(fde.pc_end, 0x400200);
    assert!(fde.contains(0x400100));
    assert!(fde.contains(0x4001ff));
    assert!(!fde.contains(0x400200));
    assert!(!fde.contains(0x4000ff));
}

#[test]
fn test_fde_is_really_cie() {
    // An FDE whose CIE pointer is zero is a misread CIE.
    let base = 0x10000u64;
    let mut bytes = vec![8, 0, 0, 0]; // length
    bytes.extend([0u8, 0, 0, 0]); // cie_ptr == 0
    bytes.extend([0u8; 4]);
    let m = memory_with(base, bytes);
    assert_eq!(
        FrameDescriptionEntry::decode(&m, base),
        Err(DwarfError::FDEIsReallyCIE)
    );
    // Zero length is its own failure.
    let m = memory_with(base, vec![0, 0, 0, 0]);
    assert_eq!(
        FrameDescriptionEntry::decode(&m, base),
        Err(DwarfError::FDEZeroLength)
    );
}

#[test]
fn test_scan_and_zero_terminator() {
    let base = 0x10000u64;
    let cie_bytes = build_cie(&[0x0c, 0x07, 0x08]);
    let fde_addr = base + cie_bytes.len() as u64;
    let fde_bytes = build_fde(fde_addr, base, 0x400100, 0x100, &[]);
    let mut all = cie_bytes;
    all.extend(fde_bytes);
    // The zero terminator ends the section.
    all.extend([0u8, 0, 0, 0]);
    let m = memory_with(base, all);

    // The scan walks the CIE, then finds the FDE covering the target.
    let (fde, _cie) = scan(&m, base, u64::MAX, 0x400150).unwrap();
    assert!(fde.contains(0x400150));
    assert_eq!(fde.fde_start, fde_addr);

    // A target nothing covers stops at the terminator.
    assert_eq!(
        scan(&m, base, u64::MAX, 0x500000),
        Err(DwarfError::FDENotFound)
    );

    // The record reader yields the CIE, the FDE, then the terminator.
    let mut entries = Entries::new(base, u64::MAX);
    assert!(matches!(entries.next(&m).unwrap(), Some(CfiEntry::Cie(_))));
    assert!(matches!(entries.next(&m).unwrap(), Some(CfiEntry::FdeCie(_))));
    assert!(entries.next(&m).unwrap().is_none());
}

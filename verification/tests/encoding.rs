use unwinder::dwarf::encoding::{decode_pointer, decode_sleb128, decode_uleb128};
use unwinder::dwarf::DwarfError;
use unwinder::mem::Memory;

const DW_EH_PE_PTR: u8 = 0x00;
const DW_EH_PE_UDATA2: u8 = 0x02;
const DW_EH_PE_UDATA4: u8 = 0x03;
const DW_EH_PE_UDATA8: u8 = 0x04;
const DW_EH_PE_SDATA2: u8 = 0x0A;
const DW_EH_PE_SDATA4: u8 = 0x0B;
const DW_EH_PE_SDATA8: u8 = 0x0C;
const DW_EH_PE_ABSPTR: u8 = 0x00;
const DW_EH_PE_PCREL: u8 = 0x10;
const DW_EH_PE_DATAREL: u8 = 0x30;
const DW_EH_PE_INDIRECT: u8 = 0x80;

fn memory_with(start: u64, bytes: Vec<u8>) -> Memory {
    let mut m = Memory::new();
    m.add_segment(start, bytes);
    m
}

#[test]
fn test_decode_uleb128() {
    let mut buf = Vec::new();
    let len = leb128::write::unsigned(&mut buf, 0).unwrap();
    assert_eq!(len, buf.len());
    let start = 0x1000u64;
    let m = memory_with(start, buf);
    let mut loc = start;
    assert_eq!(decode_uleb128(&m, &mut loc, start + len as u64).unwrap(), 0);
    assert_eq!(loc - start, len as u64);

    let mut buf = Vec::new();
    let len = leb128::write::unsigned(&mut buf, 0x12345678).unwrap();
    assert_eq!(len, buf.len());
    let m = memory_with(start, buf);
    let mut loc = start;
    assert_eq!(decode_uleb128(&m, &mut loc, start + len as u64).unwrap(), 0x12345678);
    assert_eq!(loc - start, len as u64);

    let mut buf = Vec::new();
    let len = leb128::write::unsigned(&mut buf, u64::MAX).unwrap();
    assert_eq!(len, buf.len());
    let m = memory_with(start, buf);
    let mut loc = start;
    assert_eq!(decode_uleb128(&m, &mut loc, start + len as u64).unwrap(), u64::MAX);
    assert_eq!(loc - start, len as u64);
}

#[test]
fn test_decode_sleb128() {
    let start = 0x1000u64;

    let mut buf = Vec::new();
    let len = leb128::write::signed(&mut buf, 0).unwrap();
    assert_eq!(len, buf.len());
    let m = memory_with(start, buf);
    let mut loc = start;
    assert_eq!(decode_sleb128(&m, &mut loc, start + len as u64).unwrap(), 0);
    assert_eq!(loc - start, len as u64);

    let mut buf = Vec::new();
    let len = leb128::write::signed(&mut buf, 0x12345678).unwrap();
    assert_eq!(len, buf.len());
    let m = memory_with(start, buf);
    let mut loc = start;
    assert_eq!(decode_sleb128(&m, &mut loc, start + len as u64).unwrap(), 0x12345678);
    assert_eq!(loc - start, len as u64);

    let mut buf = Vec::new();
    let len = leb128::write::signed(&mut buf, i64::MAX).unwrap();
    assert_eq!(len, buf.len());
    let m = memory_with(start, buf);
    let mut loc = start;
    assert_eq!(decode_sleb128(&m, &mut loc, start + len as u64).unwrap(), i64::MAX);
    assert_eq!(loc - start, len as u64);

    let mut buf = Vec::new();
    let len = leb128::write::signed(&mut buf, i64::MIN).unwrap();
    assert_eq!(len, buf.len());
    let m = memory_with(start, buf);
    let mut loc = start;
    assert_eq!(decode_sleb128(&m, &mut loc, start + len as u64).unwrap(), i64::MIN);
    assert_eq!(loc - start, len as u64);
}

#[test]
fn test_decode_pointer() {
    let start = 0x2000u64;

    let enc = DW_EH_PE_ABSPTR | DW_EH_PE_PTR;
    let val = u64::MAX;
    let m = memory_with(start, val.to_le_bytes().to_vec());
    let mut loc = start;
    assert_eq!(decode_pointer(&m, &mut loc, u64::MAX, enc, 0).unwrap(), val);
    assert_eq!(loc, start + 8);

    let enc = DW_EH_PE_ABSPTR | DW_EH_PE_UDATA2;
    let val = u16::MAX;
    let m = memory_with(start, val.to_le_bytes().to_vec());
    let mut loc = start;
    assert_eq!(decode_pointer(&m, &mut loc, u64::MAX, enc, 0).unwrap() as u16, val);
    assert_eq!(loc, start + 2);

    let enc = DW_EH_PE_ABSPTR | DW_EH_PE_UDATA4;
    let val = u32::MAX;
    let m = memory_with(start, val.to_le_bytes().to_vec());
    let mut loc = start;
    assert_eq!(decode_pointer(&m, &mut loc, u64::MAX, enc, 0).unwrap() as u32, val);
    assert_eq!(loc, start + 4);

    let enc = DW_EH_PE_ABSPTR | DW_EH_PE_UDATA8;
    let val = u64::MAX;
    let m = memory_with(start, val.to_le_bytes().to_vec());
    let mut loc = start;
    assert_eq!(decode_pointer(&m, &mut loc, u64::MAX, enc, 0).unwrap(), val);
    assert_eq!(loc, start + 8);

    let enc = DW_EH_PE_ABSPTR | DW_EH_PE_SDATA2;
    let val = i16::MAX;
    let m = memory_with(start, val.to_le_bytes().to_vec());
    let mut loc = start;
    assert_eq!(decode_pointer(&m, &mut loc, u64::MAX, enc, 0).unwrap() as i16, val);
    assert_eq!(loc, start + 2);

    let enc = DW_EH_PE_ABSPTR | DW_EH_PE_SDATA4;
    let val = i32::MAX;
    let m = memory_with(start, val.to_le_bytes().to_vec());
    let mut loc = start;
    assert_eq!(decode_pointer(&m, &mut loc, u64::MAX, enc, 0).unwrap() as i32, val);
    assert_eq!(loc, start + 4);

    let enc = DW_EH_PE_ABSPTR | DW_EH_PE_SDATA8;
    let val = i64::MAX;
    let m = memory_with(start, val.to_le_bytes().to_vec());
    let mut loc = start;
    assert_eq!(decode_pointer(&m, &mut loc, u64::MAX, enc, 0).unwrap() as i64, val);
    assert_eq!(loc, start + 8);

    let enc = DW_EH_PE_PCREL | DW_EH_PE_PTR;
    let val = 0x123u64;
    let m = memory_with(start, val.to_le_bytes().to_vec());
    let mut loc = start;
    assert_eq!(decode_pointer(&m, &mut loc, u64::MAX, enc, 0).unwrap(), start + val);
    assert_eq!(loc, start + 8);

    let enc = DW_EH_PE_DATAREL | DW_EH_PE_PTR;
    let val = 0x123u64;
    let m = memory_with(start, val.to_le_bytes().to_vec());
    let mut loc = start;
    assert_eq!(decode_pointer(&m, &mut loc, u64::MAX, enc, 0x456).unwrap(), val + 0x456);
    assert_eq!(loc, start + 8);

    // Indirect: the encoded pointer names the slot that holds the value.
    let enc = DW_EH_PE_ABSPTR | DW_EH_PE_PTR | DW_EH_PE_INDIRECT;
    let val = u64::MAX;
    let slot = 0x3000u64;
    let mut m = memory_with(start, slot.to_le_bytes().to_vec());
    m.add_segment(slot, val.to_le_bytes().to_vec());
    let mut loc = start;
    assert_eq!(decode_pointer(&m, &mut loc, u64::MAX, enc, 0).unwrap(), val);
    assert_eq!(loc, start + 8);
}

#[test]
fn test_decode_pointer_negative_datarel() {
    let start = 0x2000u64;
    let enc = DW_EH_PE_DATAREL | DW_EH_PE_SDATA4;
    let val: i32 = -1;
    let m = memory_with(start, val.to_le_bytes().to_vec());
    let mut loc = start;
    assert_eq!(decode_pointer(&m, &mut loc, u64::MAX, enc, 0x456).unwrap(), 0x455);
    assert_eq!(loc, start + 4);
}

#[test]
fn test_uleb128_truncated_and_malformed() {
    let start = 0x1000u64;
    // All continuation bytes up to `end`: truncated.
    let m = memory_with(start, vec![0x80, 0x80]);
    let mut loc = start;
    assert_eq!(
        decode_uleb128(&m, &mut loc, start + 2),
        Err(DwarfError::TruncatedUleb128Expression(start + 2))
    );
    // An eleventh significant byte would overflow 64 bits: malformed.
    let m = memory_with(start, vec![0xff; 12]);
    let mut loc = start;
    assert_eq!(
        decode_uleb128(&m, &mut loc, start + 12),
        Err(DwarfError::MalformedUleb128Expression(start + 9))
    );
    // A read outside the captured ranges reports the address.
    let m = Memory::new();
    let mut loc = start;
    assert_eq!(
        decode_uleb128(&m, &mut loc, start + 4),
        Err(DwarfError::UnreadableAddress(start))
    );
    // A signed read cut short by its record is reported too.
    let m = memory_with(start, vec![0x80]);
    let mut loc = start;
    assert_eq!(
        decode_sleb128(&m, &mut loc, start + 1),
        Err(DwarfError::TruncatedSleb128Expression(start + 1))
    );
}

#[test]
fn test_decode_pointer_invalid_encodings() {
    let start = 0x1000u64;
    let m = memory_with(start, vec![0u8; 8]);
    // Relocation-base bits outside absolute, pc-relative and data-relative.
    let mut loc = start;
    assert_eq!(
        decode_pointer(&m, &mut loc, u64::MAX, 0x20, 0),
        Err(DwarfError::InvalidPointerEncodingOffset(0x20))
    );
    // A data-relative encoding with no base supplied.
    let mut loc = start;
    assert_eq!(
        decode_pointer(&m, &mut loc, u64::MAX, DW_EH_PE_DATAREL | DW_EH_PE_PTR, 0),
        Err(DwarfError::InvalidDataRelBase)
    );
    // An unsupported value width.
    let mut loc = start;
    assert_eq!(
        decode_pointer(&m, &mut loc, u64::MAX, 0x05, 0),
        Err(DwarfError::InvalidPointerEncodingValue(0x05))
    );
}

use unwinder::mem::{parse_maps_entry, AddressRange, Memory};

fn memory_with(start: u64, bytes: Vec<u8>) -> Memory {
    let mut m = Memory::new();
    m.add_segment(start, bytes);
    m
}

#[test]
fn test_address_range() {
    let ar = AddressRange { start: 1, end: 3 };
    assert!(ar.contains(1));
    assert!(ar.contains(2));
    assert!(!ar.contains(0));
    assert!(!ar.contains(3));
}

#[test]
fn utils_test_load() {
    let val = i8::MIN;
    let loc = 0x1000u64;
    let m = memory_with(loc, vec![val as u8]);
    assert_eq!(m.read_u8(loc).unwrap() as i8, val);
    let val = u64::MAX;
    let loc = 0x2000u64;
    let m = memory_with(loc, val.to_le_bytes().to_vec());
    assert_eq!(m.read_u64(loc).unwrap(), val);
}

#[test]
fn mod_test_load() {
    let val = i8::MIN;
    let loc = 0x4000u64;
    let m = memory_with(loc, vec![val as u8]);
    assert_eq!(m.read_u8(loc).unwrap() as i8, val);
    let val = u64::MAX;
    let loc = 0x5000u64;
    let m = memory_with(loc, val.to_le_bytes().to_vec());
    assert_eq!(m.read_u64(loc).unwrap(), val);
}

#[test]
fn test_address_is_readable() {
    let m = memory_with(0x1000, vec![0u8; 16]);
    assert!(m.address_is_readable(0x1000));
    assert!(m.address_is_readable(0x100f));
    assert!(!m.address_is_readable(0x1010));
    assert!(!m.address_is_readable(0));
    assert!(!m.address_is_readable(0xffffffffffffffff));
}

#[test]
fn test_little_endian_reads() {
    let m = memory_with(0x10, vec![0x78, 0x56, 0x34, 0x12, 0xaa, 0xbb, 0xcc, 0xdd]);
    assert_eq!(m.read_u16(0x10).unwrap(), 0x5678);
    assert_eq!(m.read_u32(0x10).unwrap(), 0x12345678);
    assert_eq!(m.read_u64(0x10).unwrap(), 0xddccbbaa_12345678);
    // A read that runs off the end of the captured range fails.
    assert!(m.read_u64(0x11).is_err());
    // Earlier segments take precedence where ranges overlap.
    let mut m2 = memory_with(0x10, vec![1, 2]);
    m2.add_segment(0x10, vec![9, 9]);
    assert_eq!(m2.read_u8(0x11).unwrap(), 2);
}

#[test]
fn test_parse_maps_entry() {
    let line = b"7f1a2b3c0000-7f1a2b3c5000 r-xp 00000000 08:01 123 /usr/lib/x.so";
    let (range, readable) = parse_maps_entry(line).unwrap();
    assert_eq!(range.start, 0x7f1a2b3c0000);
    assert_eq!(range.end, 0x7f1a2b3c5000);
    assert!(readable);

    let line = b"ffffffffff600000-ffffffffff601000 --xp 0 00:00 0 [vsyscall]";
    let (range, readable) = parse_maps_entry(line).unwrap();
    assert_eq!(range.start, 0xffffffffff600000);
    assert_eq!(range.end, 0xffffffffff601000);
    assert!(!readable);

    // Malformed lines are rejected: no digits, a bad digit, a missing
    // permissions field.
    assert!(parse_maps_entry(b"-7000 r").is_none());
    assert!(parse_maps_entry(b"60z0-7000 r").is_none());
    assert!(parse_maps_entry(b"6000-7000").is_none());
    assert!(parse_maps_entry(b"").is_none());
}

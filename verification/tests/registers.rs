use unwinder::registers::{
    Arch, Registers, UNW_ARM64_FP, UNW_ARM64_PC, UNW_ARM64_RA_SIGN_STATE, UNW_ARM64_SP,
    UNW_X86_64_RIP, UNW_X86_64_RSP,
};

#[test]
fn test_register_accessors() {
    let mut r = Registers::new(Arch::X64);
    assert_eq!(r.pc(), 0);
    assert_eq!(r.sp(), 0);
    r.set_pc(0x1234);
    r.set_sp(0x8000);
    assert_eq!(r.pc(), 0x1234);
    assert_eq!(r.sp(), 0x8000);
    assert_eq!(r.get(UNW_X86_64_RIP), 0x1234);
    assert_eq!(r.get(UNW_X86_64_RSP), 0x8000);
    r.set(3, 7);
    assert_eq!(r.get(3), 7);

    let mut a = Registers::new(Arch::Aarch64);
    a.set_pc(0x5678);
    a.set_sp(0x9000);
    assert_eq!(a.get(UNW_ARM64_PC), 0x5678);
    assert_eq!(a.get(UNW_ARM64_SP), 0x9000);
    a.set_float_register(64, 0x3ff0000000000000);
    assert_eq!(a.float_register(64), 0x3ff0000000000000);
}

#[test]
fn test_register_validity_routing() {
    // The program counter and stack pointer are always valid registers.
    let x = Registers::new(Arch::X64);
    assert!(x.valid_register(UNW_X86_64_RIP));
    assert!(x.valid_register(UNW_X86_64_RSP));
    let a = Registers::new(Arch::Aarch64);
    assert!(a.valid_register(UNW_ARM64_PC));
    assert!(a.valid_register(UNW_ARM64_SP));

    // Every number up to the maximum routes to exactly one register class,
    // except the reserved aarch64 numbers 33 and 35 to 63.
    for n in 0..=x.max_register_num() {
        assert!(x.valid_register(n) || x.valid_float_register(n) || x.valid_vector_register(n));
    }
    for n in 0..=a.max_register_num() {
        let reserved = n == 33 || (35 <= n && n < 64);
        assert_eq!(
            a.valid_register(n) || a.valid_float_register(n) || a.valid_vector_register(n),
            !reserved
        );
    }

    // Above the maximum, nothing is valid.
    assert!(!x.valid_register(17));
    assert!(!x.valid_float_register(0));
    assert!(!a.valid_register(96));
    assert!(a.valid_register(UNW_ARM64_RA_SIGN_STATE));
    assert!(a.valid_register(UNW_ARM64_FP));
    assert!(a.valid_float_register(95));
    assert!(!a.valid_float_register(96));
}

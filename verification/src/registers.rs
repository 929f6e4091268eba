//! The register bank: a fixed, trivially-copyable register file indexed by
//! DWARF register number, for the two supported instruction sets.
//!
//! Floating-point registers are carried as raw 64-bit patterns: the unwinder
//! only ever moves saved register images between memory and the bank, so no
//! floating-point arithmetic is involved.

use vstd::prelude::*;

verus! {

// DWARF register numbers, x86_64.
pub const UNW_X86_64_RAX: usize = 0;
pub const UNW_X86_64_RDX: usize = 1;
pub const UNW_X86_64_RCX: usize = 2;
pub const UNW_X86_64_RBX: usize = 3;
pub const UNW_X86_64_RSI: usize = 4;
pub const UNW_X86_64_RDI: usize = 5;
pub const UNW_X86_64_RBP: usize = 6;
pub const UNW_X86_64_RSP: usize = 7;
pub const UNW_X86_64_R8: usize = 8;
pub const UNW_X86_64_R9: usize = 9;
pub const UNW_X86_64_R10: usize = 10;
pub const UNW_X86_64_R11: usize = 11;
pub const UNW_X86_64_R12: usize = 12;
pub const UNW_X86_64_R13: usize = 13;
pub const UNW_X86_64_R14: usize = 14;
pub const UNW_X86_64_R15: usize = 15;
pub const UNW_X86_64_RIP: usize = 16;
pub const UNW_X86_64_MAX_REG_NUM: usize = 16;

// DWARF register numbers, aarch64.
pub const UNW_ARM64_FP: usize = 29;
pub const UNW_ARM64_LR: usize = 30;
pub const UNW_ARM64_SP: usize = 31;
pub const UNW_ARM64_PC: usize = 32;
pub const UNW_ARM64_RA_SIGN_STATE: usize = 34;
pub const UNW_ARM64_D0: usize = 64;
pub const UNW_ARM64_D31: usize = 95;
pub const UNW_ARM64_MAX_REG_NUM: usize = 95;

/// The number of slots in the register bank: one for every DWARF register
/// number either instruction set uses.
pub const REGISTER_BANK_SIZE: usize = 96;

/// The instruction set whose register numbering a bank follows.
#[derive(Debug, Copy, Clone, PartialEq, Eq, Structural)]
pub enum Arch {
    X64,
    Aarch64,
}

/// Whether DWARF register number `n` names a general-purpose register (the
/// program counter and stack pointer included) on `arch`.
pub open spec fn spec_valid_register(arch: Arch, n: usize) -> bool {
    match arch {
        Arch::X64 => n <= UNW_X86_64_MAX_REG_NUM,
        Arch::Aarch64 => n <= UNW_ARM64_PC || n == UNW_ARM64_RA_SIGN_STATE || (UNW_ARM64_D0 <= n
            <= UNW_ARM64_MAX_REG_NUM),
    }
}

/// Whether DWARF register number `n` names a floating-point register on `arch`.
pub open spec fn spec_valid_float_register(arch: Arch, n: usize) -> bool {
    match arch {
        Arch::X64 => false,
        Arch::Aarch64 => UNW_ARM64_D0 <= n <= UNW_ARM64_D31,
    }
}

/// The DWARF number of the program counter on `arch`.
pub open spec fn spec_ip_index(arch: Arch) -> usize {
    match arch {
        Arch::X64 => UNW_X86_64_RIP,
        Arch::Aarch64 => UNW_ARM64_PC,
    }
}

/// The DWARF number of the stack pointer on `arch`.
pub open spec fn spec_sp_index(arch: Arch) -> usize {
    match arch {
        Arch::X64 => UNW_X86_64_RSP,
        Arch::Aarch64 => UNW_ARM64_SP,
    }
}

/// The largest DWARF register number `arch` uses.
pub open spec fn spec_max_register_num(arch: Arch) -> usize {
    match arch {
        Arch::X64 => UNW_X86_64_MAX_REG_NUM,
        Arch::Aarch64 => UNW_ARM64_MAX_REG_NUM,
    }
}

/// `Registers` holds the register context of one thread at one instant,
/// indexed by DWARF register number. It is `Copy`, so a step can build the
/// parent frame's bank by value and replace the old one atomically.
#[derive(Debug, Copy, Clone)]
pub struct Registers {
    pub arch: Arch,
    pub regs: [u64; 96],
}

impl Registers {
    /// The bank's contents as a sequence indexed by DWARF register number.
    pub open spec fn view(self) -> Seq<u64> {
        self.regs@
    }

    /// The program counter slot.
    pub open spec fn spec_pc(self) -> u64 {
        self.regs@[spec_ip_index(self.arch) as int]
    }

    /// The stack pointer slot.
    pub open spec fn spec_sp(self) -> u64 {
        self.regs@[spec_sp_index(self.arch) as int]
    }

    /// A zeroed register bank for `arch`.
    pub fn new(arch: Arch) -> (r: Registers)
        ensures
            r.arch == arch,
            r.regs@ == Seq::new(96, |i: int| 0u64),
    {
        let r = Registers { arch, regs: [0u64; 96] };
        proof {
            assert(r.regs@ =~= Seq::new(96, |i: int| 0u64));
        }
        r
    }

    /// The largest DWARF register number this bank's architecture uses.
    pub fn max_register_num(&self) -> (r: usize)
        ensures
            r == spec_max_register_num(self.arch),
            r < REGISTER_BANK_SIZE,
    {
        match self.arch {
            Arch::X64 => UNW_X86_64_MAX_REG_NUM,
            Arch::Aarch64 => UNW_ARM64_MAX_REG_NUM,
        }
    }

    /// Whether `n` names a general-purpose register of this bank.
    pub fn valid_register(&self, n: usize) -> (r: bool)
        ensures
            r == spec_valid_register(self.arch, n),
            r ==> n < REGISTER_BANK_SIZE,
    {
        match self.arch {
            Arch::X64 => n <= UNW_X86_64_MAX_REG_NUM,
            Arch::Aarch64 => {
                if n == UNW_ARM64_PC || n == UNW_ARM64_SP {
                    true
                } else if n > UNW_ARM64_MAX_REG_NUM {
                    false
                } else if n == UNW_ARM64_RA_SIGN_STATE {
                    true
                } else if n > UNW_ARM64_PC && n < UNW_ARM64_D0 {
                    false
                } else {
                    true
                }
            },
        }
    }

    /// Whether `n` names a floating-point register of this bank.
    pub fn valid_float_register(&self, n: usize) -> (r: bool)
        ensures
            r == spec_valid_float_register(self.arch, n),
            r ==> n < REGISTER_BANK_SIZE,
    {
        match self.arch {
            Arch::X64 => false,
            Arch::Aarch64 => UNW_ARM64_D0 <= n && n <= UNW_ARM64_D31,
        }
    }

    /// Whether `n` names a vector register of this bank. Neither supported
    /// instruction set exposes vector registers to the unwinder.
    pub fn valid_vector_register(&self, n: usize) -> (r: bool)
        ensures
            r == false,
    {
        let _ = n;
        false
    }

    /// Read general-purpose register `n`.
    pub fn get(&self, n: usize) -> (r: u64)
        requires
            spec_valid_register(self.arch, n) || spec_valid_float_register(self.arch, n),
        ensures
            r == self.regs@[n as int],
    {
        self.regs[n]
    }

    /// Write general-purpose register `n`.
    pub fn set(&mut self, n: usize, v: u64)
        requires
            spec_valid_register(old(self).arch, n) || spec_valid_float_register(
                old(self).arch,
                n,
            ),
        ensures
            final(self).arch == old(self).arch,
            final(self).regs@ == old(self).regs@.update(n as int, v),
    {
        self.regs[n] = v;
    }

    /// Read floating-point register `n` as its raw 64-bit pattern.
    pub fn float_register(&self, n: usize) -> (r: u64)
        requires
            spec_valid_float_register(self.arch, n),
        ensures
            r == self.regs@[n as int],
    {
        self.regs[n]
    }

    /// Write floating-point register `n` from a raw 64-bit pattern.
    pub fn set_float_register(&mut self, n: usize, v: u64)
        requires
            spec_valid_float_register(old(self).arch, n),
        ensures
            final(self).arch == old(self).arch,
            final(self).regs@ == old(self).regs@.update(n as int, v),
    {
        self.regs[n] = v;
    }

    /// Get the value of the PC (program counter) register.
    pub fn pc(&self) -> (r: u64)
        ensures
            r == self.spec_pc(),
    {
        match self.arch {
            Arch::X64 => self.regs[UNW_X86_64_RIP],
            Arch::Aarch64 => self.regs[UNW_ARM64_PC],
        }
    }

    /// Set the value of the PC (program counter) register.
    pub fn set_pc(&mut self, v: u64)
        ensures
            final(self).arch == old(self).arch,
            final(self).regs@ == old(self).regs@.update(spec_ip_index(old(self).arch) as int, v),
    {
        match self.arch {
            Arch::X64 => self.regs[UNW_X86_64_RIP] = v,
            Arch::Aarch64 => self.regs[UNW_ARM64_PC] = v,
        }
    }

    /// Get the value of the SP (stack pointer) register.
    pub fn sp(&self) -> (r: u64)
        ensures
            r == self.spec_sp(),
    {
        match self.arch {
            Arch::X64 => self.regs[UNW_X86_64_RSP],
            Arch::Aarch64 => self.regs[UNW_ARM64_SP],
        }
    }

    /// Set the value of the SP (stack pointer) register.
    pub fn set_sp(&mut self, v: u64)
        ensures
            final(self).arch == old(self).arch,
            final(self).regs@ == old(self).regs@.update(spec_sp_index(old(self).arch) as int, v),
    {
        match self.arch {
            Arch::X64 => self.regs[UNW_X86_64_RSP] = v,
            Arch::Aarch64 => self.regs[UNW_ARM64_SP] = v,
        }
    }
}

/// The program counter and the stack pointer are valid registers on every
/// supported architecture, and every floating-point register number is
/// also within the bank.
pub proof fn lemma_ip_sp_always_valid(arch: Arch)
    ensures
        spec_valid_register(arch, spec_ip_index(arch)),
        spec_valid_register(arch, spec_sp_index(arch)),
{
}

/// Register-number routing is total over the supported numbers: every DWARF
/// register number up to the architecture's maximum is either a
/// general-purpose or a floating-point register, except the reserved
/// aarch64 numbers 33 and 35 to 63, which name no register there.
pub proof fn lemma_register_routing_total(arch: Arch, n: usize)
    requires
        n <= spec_max_register_num(arch),
    ensures
        spec_valid_register(arch, n) || spec_valid_float_register(arch, n) || (arch
            == Arch::Aarch64 && (n == 33 || 35 <= n <= 63)),
{
}

} // verus!

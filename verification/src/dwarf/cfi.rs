//! `.eh_frame` record parsing: CIEs, FDEs, and the sequential scan over a
//! whole `.eh_frame` section.
//!
//! Every decoder is specified against a specification-level twin that fixes
//! the decoded record, field by field, for every memory image.

use vstd::prelude::*;

use crate::dwarf::consts::{DW_EH_PE_OMIT};
use crate::dwarf::encoding::{
    decode_pointer, decode_sleb128, decode_uleb128, spec_pointer, spec_sleb128, spec_uleb128,
};
use crate::dwarf::DwarfError;
use crate::mem::Memory;

verus! {

// The augmentation-string letters, as bytes.
pub const AUG_Z: u8 = 0x7a;
pub const AUG_P: u8 = 0x50;
pub const AUG_L: u8 = 0x4c;
pub const AUG_R: u8 = 0x52;
pub const AUG_S: u8 = 0x53;
pub const AUG_B: u8 = 0x42;

/// The shared prolog record of a set of FDEs: calling convention, alignment
/// factors, encodings, and the default register rules' instruction stream.
#[derive(Debug, Copy, Clone, PartialEq, Eq, Structural)]
pub struct CommonInformationEntry {
    pub cie_start: u64,
    pub cie_length: u64,
    pub cie_instructions: u64,
    pub pointer_encoding: u8,
    pub lsda_encoding: u8,
    pub personality_encoding: u8,
    pub personality_offset_in_cie: u8,
    pub personality: u64,
    pub code_align_factor: u32,
    pub data_align_factor: i32,
    pub is_signal_frame: bool,
    pub fdes_have_augmentation_data: bool,
    pub return_address_register: u8,
    pub addresses_signed_with_b_key: bool,
}

/// The length field of a CIE or FDE record: the 32-bit length, with
/// `0xffffffff` escaping to a 64-bit length in the following 8 bytes.
/// Yields the length, the position after the length field, and the position
/// after the record's content.
pub open spec fn spec_record_length(m: Memory, start: u64) -> Result<(u64, u64, u64), DwarfError> {
    match m.u32_at(start) {
        Option::None => Err(DwarfError::UnreadableAddress(start)),
        Option::Some(l32) => {
            let loc = start.wrapping_add(4);
            if l32 == 0xffffffff_u32 {
                match m.u64_at(loc) {
                    Option::None => Err(DwarfError::UnreadableAddress(loc)),
                    Option::Some(l64) => Ok(
                        (l64, loc.wrapping_add(8), loc.wrapping_add(8).wrapping_add(l64)),
                    ),
                }
            } else {
                Ok((l32 as u64, loc, loc.wrapping_add(l32 as u64)))
            }
        },
    }
}

/// Read a record's length field, following the 64-bit escape.
fn read_record_length(m: &Memory, start: u64) -> (r: Result<(u64, u64, u64), DwarfError>)
    ensures
        r == spec_record_length(*m, start),
{
    let l32 = match m.read_u32(start) {
        Ok(v) => v,
        Err(e) => return Err(e),
    };
    let loc = start.wrapping_add(4);
    if l32 == 0xffffffff_u32 {
        // 0xffffffff means the length is really in the next 8 bytes.
        let l64 = match m.read_u64(loc) {
            Ok(v) => v,
            Err(e) => return Err(e),
        };
        Ok((l64, loc.wrapping_add(8), loc.wrapping_add(8).wrapping_add(l64)))
    } else {
        Ok((l32 as u64, loc, loc.wrapping_add(l32 as u64)))
    }
}

/// The position after the nul of the augmentation string starting at `loc`.
pub open spec fn spec_skip_aug_string(m: Memory, loc: u64) -> Result<u64, DwarfError>
    decreases u64::MAX - loc,
{
    match m.byte_at(loc) {
        Option::None => Err(DwarfError::UnreadableAddress(loc)),
        Option::Some(b) => {
            if loc == u64::MAX {
                Err(DwarfError::UnreadableAddress(loc))
            } else if b == 0 {
                Ok((loc + 1) as u64)
            } else {
                spec_skip_aug_string(m, (loc + 1) as u64)
            }
        },
    }
}

/// Advance `loc` past the nul-terminated augmentation string.
fn skip_aug_string(m: &Memory, loc: &mut u64) -> (r: Result<(), DwarfError>)
    ensures
        match r {
            Ok(_) => spec_skip_aug_string(*m, *old(loc)) == Ok::<u64, DwarfError>(*final(loc)),
            Err(e) => spec_skip_aug_string(*m, *old(loc)) == Err::<u64, DwarfError>(e),
        },
{
    loop
        invariant
            spec_skip_aug_string(*m, *old(loc)) == spec_skip_aug_string(*m, *loc),
        decreases u64::MAX - *loc,
    {
        let b = match m.read_u8(*loc) {
            Ok(b) => b,
            Err(e) => return Err(e),
        };
        if *loc == u64::MAX {
            return Err(DwarfError::UnreadableAddress(*loc));
        }
        *loc = *loc + 1;
        if b == 0 {
            return Ok(());
        }
    }
}

/// Fill in the record-extent fields once parsing has located the start of
/// the CIE's initial instructions.
pub open spec fn spec_cie_finish(
    cie: CommonInformationEntry,
    start: u64,
    content_end: u64,
    loc: u64,
) -> CommonInformationEntry {
    CommonInformationEntry {
        cie_length: content_end.wrapping_sub(start),
        cie_instructions: loc,
        ..cie
    }
}

/// One pass over the augmentation string at `n`, consuming augmentation
/// data at `loc` as the string directs, until the string's nul.
pub open spec fn spec_cie_aug(
    m: Memory,
    start: u64,
    content_end: u64,
    n: u64,
    loc: u64,
    cie: CommonInformationEntry,
) -> Result<CommonInformationEntry, DwarfError>
    decreases u64::MAX - n,
{
    match m.byte_at(n) {
        Option::None => Err(DwarfError::UnreadableAddress(n)),
        Option::Some(b) => {
            if b == 0 {
                Ok(spec_cie_finish(cie, start, content_end, loc))
            } else if n == u64::MAX {
                Err(DwarfError::UnreadableAddress(n))
            } else if b == AUG_Z {
                spec_cie_aug(
                    m,
                    start,
                    content_end,
                    (n + 1) as u64,
                    loc,
                    (CommonInformationEntry { fdes_have_augmentation_data: true, ..cie }),
                )
            } else if b == AUG_P {
                match m.byte_at(loc) {
                    Option::None => Err(DwarfError::UnreadableAddress(loc)),
                    Option::Some(enc) => {
                        let loc2 = loc.wrapping_add(1);
                        match spec_pointer(m, loc2, content_end, enc, 0) {
                            Err(e) => Err(e),
                            Ok((p, loc3)) => spec_cie_aug(
                                m,
                                start,
                                content_end,
                                (n + 1) as u64,
                                loc3,
                                (CommonInformationEntry {
                                    personality_encoding: enc,
                                    personality_offset_in_cie: loc2.wrapping_sub(start) as u8,
                                    personality: p,
                                    ..cie
                                }),
                            ),
                        }
                    },
                }
            } else if b == AUG_L {
                match m.byte_at(loc) {
                    Option::None => Err(DwarfError::UnreadableAddress(loc)),
                    Option::Some(enc) => spec_cie_aug(
                        m,
                        start,
                        content_end,
                        (n + 1) as u64,
                        loc.wrapping_add(1),
                        (CommonInformationEntry { lsda_encoding: enc, ..cie }),
                    ),
                }
            } else if b == AUG_R {
                match m.byte_at(loc) {
                    Option::None => Err(DwarfError::UnreadableAddress(loc)),
                    Option::Some(enc) => spec_cie_aug(
                        m,
                        start,
                        content_end,
                        (n + 1) as u64,
                        loc.wrapping_add(1),
                        (CommonInformationEntry { pointer_encoding: enc, ..cie }),
                    ),
                }
            } else if b == AUG_S {
                spec_cie_aug(
                    m,
                    start,
                    content_end,
                    (n + 1) as u64,
                    loc,
                    (CommonInformationEntry { is_signal_frame: true, ..cie }),
                )
            } else if b == AUG_B {
                spec_cie_aug(
                    m,
                    start,
                    content_end,
                    (n + 1) as u64,
                    loc,
                    (CommonInformationEntry { addresses_signed_with_b_key: true, ..cie }),
                )
            } else {
                spec_cie_aug(m, start, content_end, (n + 1) as u64, loc, cie)
            }
        },
    }
}

/// The CIE record at `start`, as [`CommonInformationEntry::decode`] parses it.
#[verifier::opaque]
pub open spec fn spec_cie(m: Memory, start: u64) -> Result<CommonInformationEntry, DwarfError> {
    match spec_record_length(m, start) {
        Err(e) => Err(e),
        Ok((length, loc1, content_end)) => {
            if length == 0 {
                Err(DwarfError::CIEZeroLength)
            } else {
                match m.u32_at(loc1) {
                    Option::None => Err(DwarfError::UnreadableAddress(loc1)),
                    Option::Some(cie_id) => {
                        if cie_id != 0 {
                            Err(DwarfError::CIEIdIsNotZero)
                        } else {
                            let loc2 = loc1.wrapping_add(4);
                            match m.byte_at(loc2) {
                                Option::None => Err(DwarfError::UnreadableAddress(loc2)),
                                Option::Some(version) => {
                                    if version != 1 && version != 3 {
                                        Err(DwarfError::CIEInvalidVersion(version))
                                    } else {
                                        spec_cie_tail(
                                            m,
                                            start,
                                            content_end,
                                            loc2.wrapping_add(1),
                                            version,
                                        )
                                    }
                                },
                            }
                        }
                    },
                }
            }
        },
    }
}

/// The CIE fields that follow the version byte: alignment factors, the
/// return-address register, and the augmentation data.
pub open spec fn spec_cie_tail(
    m: Memory,
    start: u64,
    content_end: u64,
    aug_start: u64,
    version: u8,
) -> Result<CommonInformationEntry, DwarfError> {
    match spec_skip_aug_string(m, aug_start) {
        Err(e) => Err(e),
        Ok(loc3) => {
            match spec_uleb128(m, loc3, content_end) {
                Err(e) => Err(e),
                Ok((caf, loc4)) => {
                    match spec_sleb128(m, loc4, content_end) {
                        Err(e) => Err(e),
                        Ok((daf, loc5)) => {
                            match spec_cie_ra_register(m, loc5, content_end, version) {
                                Err(e) => Err(e),
                                Ok((ra, loc6)) => {
                                    let cie = (CommonInformationEntry {
                                        cie_start: start,
                                        cie_length: 0,
                                        cie_instructions: 0,
                                        pointer_encoding: 0,
                                        lsda_encoding: DW_EH_PE_OMIT,
                                        personality_encoding: 0,
                                        personality_offset_in_cie: 0,
                                        personality: 0,
                                        code_align_factor: caf as u32,
                                        data_align_factor: daf as i32,
                                        is_signal_frame: false,
                                        fdes_have_augmentation_data: false,
                                        return_address_register: ra,
                                        addresses_signed_with_b_key: false,
                                    });
                                    match m.byte_at(aug_start) {
                                        Option::None => Err(
                                            DwarfError::UnreadableAddress(aug_start),
                                        ),
                                        Option::Some(b) => {
                                            if b == AUG_Z {
                                                match spec_uleb128(m, loc6, content_end) {
                                                    Err(e) => Err(e),
                                                    Ok((_, loc7)) => spec_cie_aug(
                                                        m,
                                                        start,
                                                        content_end,
                                                        aug_start,
                                                        loc7,
                                                        cie,
                                                    ),
                                                }
                                            } else {
                                                Ok(
                                                    spec_cie_finish(cie, start, content_end, loc6),
                                                )
                                            }
                                        },
                                    }
                                },
                            }
                        },
                    }
                },
            }
        },
    }
}

/// The return-address register field: a single byte for CIE version 1, a
/// ULEB128 below 255 for version 3.
pub open spec fn spec_cie_ra_register(
    m: Memory,
    loc: u64,
    content_end: u64,
    version: u8,
) -> Result<(u8, u64), DwarfError> {
    if version == 1 {
        match m.byte_at(loc) {
            Option::None => Err(DwarfError::UnreadableAddress(loc)),
            Option::Some(ra) => Ok((ra, loc.wrapping_add(1))),
        }
    } else {
        match spec_uleb128(m, loc, content_end) {
            Err(e) => Err(e),
            Ok((r, next)) => {
                if r >= 255 {
                    Err(DwarfError::InvalidReturnAddressRegisterNumber(r as usize))
                } else {
                    Ok((r as u8, next))
                }
            },
        }
    }
}

/// Read the return-address register field: one byte for CIE version 1, a
/// ULEB128 below 255 for version 3.
fn read_ra_register(m: &Memory, loc: &mut u64, content_end: u64, version: u8) -> (r: Result<
    u8,
    DwarfError,
>)
    ensures
        match r {
            Ok(v) => spec_cie_ra_register(*m, *old(loc), content_end, version) == Ok::<
                (u8, u64),
                DwarfError,
            >((v, *final(loc))),
            Err(e) => spec_cie_ra_register(*m, *old(loc), content_end, version) == Err::<
                (u8, u64),
                DwarfError,
            >(e),
        },
{
    if version == 1 {
        let ra = match m.read_u8(*loc) {
            Ok(v) => v,
            Err(e) => return Err(e),
        };
        *loc = loc.wrapping_add(1);
        Ok(ra)
    } else {
        let r = match decode_uleb128(m, loc, content_end) {
            Ok(v) => v,
            Err(e) => return Err(e),
        };
        if r >= 255 {
            Err(DwarfError::InvalidReturnAddressRegisterNumber(r as usize))
        } else {
            Ok(r as u8)
        }
    }
}

impl CommonInformationEntry {
    /// Parse the CIE record at `start` into a [`CommonInformationEntry`].
    pub fn decode(m: &Memory, start: u64) -> (r: Result<CommonInformationEntry, DwarfError>)
        ensures
            r == spec_cie(*m, start),
    {
        proof {
            reveal(spec_cie);
        }
        // Parse the length, following the 64-bit escape.
        let (length, mut loc, cie_content_end) = match read_record_length(m, start) {
            Ok(v) => v,
            Err(e) => return Err(e),
        };
        if length == 0 {
            return Err(DwarfError::CIEZeroLength);
        }

        // The CIE ID of a CIE is always 0.
        let cie_id = match m.read_u32(loc) {
            Ok(v) => v,
            Err(e) => return Err(e),
        };
        if cie_id != 0 {
            return Err(DwarfError::CIEIdIsNotZero);
        }
        loc = loc.wrapping_add(4);

        // The version is always 1 or 3.
        let version = match m.read_u8(loc) {
            Ok(v) => v,
            Err(e) => return Err(e),
        };
        if version != 1 && version != 3 {
            return Err(DwarfError::CIEInvalidVersion(version));
        }
        loc = loc.wrapping_add(1);

        // Save the start of the augmentation string and skip past it.
        let augmentation_str_start = loc;
        match skip_aug_string(m, &mut loc) {
            Ok(_) => (),
            Err(e) => return Err(e),
        }

        // Alignment factors and the return-address register.
        let caf = match decode_uleb128(m, &mut loc, cie_content_end) {
            Ok(v) => v,
            Err(e) => return Err(e),
        };
        let daf = match decode_sleb128(m, &mut loc, cie_content_end) {
            Ok(v) => v,
            Err(e) => return Err(e),
        };
        let ra = match read_ra_register(m, &mut loc, cie_content_end, version) {
            Ok(v) => v,
            Err(e) => return Err(e),
        };

        let mut cie = CommonInformationEntry {
            cie_start: start,
            cie_length: 0,
            cie_instructions: 0,
            pointer_encoding: 0,
            lsda_encoding: DW_EH_PE_OMIT,
            personality_encoding: 0,
            personality_offset_in_cie: 0,
            personality: 0,
            code_align_factor: caf as u32,
            data_align_factor: daf as i32,
            is_signal_frame: false,
            fdes_have_augmentation_data: false,
            return_address_register: ra,
            addresses_signed_with_b_key: false,
        };

        // Parse the augmentation data the augmentation string announces.
        let mut n: u64 = augmentation_str_start;
        let first = match m.read_u8(n) {
            Ok(v) => v,
            Err(e) => return Err(e),
        };
        if first == AUG_Z {
            // The augmentation-data length precedes the data itself.
            match decode_uleb128(m, &mut loc, cie_content_end) {
                Ok(_) => (),
                Err(e) => return Err(e),
            }
            loop
                invariant
                    spec_cie(*m, start) == spec_cie_aug(*m, start, cie_content_end, n, loc, cie),
                ensures
                    spec_cie(*m, start) == spec_cie_aug(*m, start, cie_content_end, n, loc, cie),
                    m.byte_at(n) == Some(0u8),
                decreases u64::MAX - n,
            {
                let b = match m.read_u8(n) {
                    Ok(v) => v,
                    Err(e) => return Err(e),
                };
                if b == 0 {
                    break;
                }
                if n == u64::MAX {
                    return Err(DwarfError::UnreadableAddress(n));
                }
                if b == AUG_Z {
                    cie.fdes_have_augmentation_data = true;
                } else if b == AUG_P {
                    let enc = match m.read_u8(loc) {
                        Ok(v) => v,
                        Err(e) => return Err(e),
                    };
                    cie.personality_encoding = enc;
                    loc = loc.wrapping_add(1);
                    cie.personality_offset_in_cie = loc.wrapping_sub(start) as u8;
                    cie.personality = match decode_pointer(m, &mut loc, cie_content_end, enc, 0) {
                        Ok(v) => v,
                        Err(e) => return Err(e),
                    };
                } else if b == AUG_L {
                    cie.lsda_encoding = match m.read_u8(loc) {
                        Ok(v) => v,
                        Err(e) => return Err(e),
                    };
                    loc = loc.wrapping_add(1);
                } else if b == AUG_R {
                    cie.pointer_encoding = match m.read_u8(loc) {
                        Ok(v) => v,
                        Err(e) => return Err(e),
                    };
                    loc = loc.wrapping_add(1);
                } else if b == AUG_S {
                    cie.is_signal_frame = true;
                } else if b == AUG_B {
                    cie.addresses_signed_with_b_key = true;
                }
                n = n + 1;
            }
        }

        cie.cie_length = cie_content_end.wrapping_sub(start);
        cie.cie_instructions = loc;
        Ok(cie)
    }
}

/// The per-function unwind record: the PC range covered and where its CFI
/// instruction stream lies.
#[derive(Debug, Copy, Clone, PartialEq, Eq, Structural)]
pub struct FrameDescriptionEntry {
    pub fde_start: u64,
    pub fde_length: u64,
    pub fde_instructions: u64,
    pub pc_start: u64,
    pub pc_end: u64,
    pub lsda: u64,
}

/// The FDE record at `start` with its owning CIE, as
/// [`FrameDescriptionEntry::decode`] parses them.
pub open spec fn spec_fde(
    m: Memory,
    start: u64,
) -> Result<(FrameDescriptionEntry, CommonInformationEntry), DwarfError> {
    match spec_record_length(m, start) {
        Err(e) => Err(e),
        Ok((length, loc1, next_cfi)) => {
            if length == 0 {
                Err(DwarfError::FDEZeroLength)
            } else {
                match m.u32_at(loc1) {
                    Option::None => Err(DwarfError::UnreadableAddress(loc1)),
                    Option::Some(cie_ptr) => {
                        if cie_ptr == 0 {
                            Err(DwarfError::FDEIsReallyCIE)
                        } else {
                            match spec_cie(m, loc1.wrapping_sub(cie_ptr as u64)) {
                                Err(e) => Err(e),
                                Ok(cie) => spec_fde_tail(
                                    m,
                                    start,
                                    next_cfi,
                                    loc1.wrapping_add(4),
                                    cie,
                                ),
                            }
                        }
                    },
                }
            }
        },
    }
}

/// The FDE fields after the CIE pointer: the PC range and the optional
/// augmentation block with the LSDA.
pub open spec fn spec_fde_tail(
    m: Memory,
    start: u64,
    next_cfi: u64,
    loc: u64,
    cie: CommonInformationEntry,
) -> Result<(FrameDescriptionEntry, CommonInformationEntry), DwarfError> {
    match spec_pointer(m, loc, next_cfi, cie.pointer_encoding, 0) {
        Err(e) => Err(e),
        Ok((pc_start, loc2)) => {
            match spec_pointer(m, loc2, next_cfi, (cie.pointer_encoding & 0x0f) as u8, 0) {
                Err(e) => Err(e),
                Ok((pc_range, loc3)) => {
                    match spec_fde_aug(m, next_cfi, loc3, cie) {
                        Err(e) => Err(e),
                        Ok((lsda, loc4)) => Ok(
                            (
                                (FrameDescriptionEntry {
                                    fde_start: start,
                                    fde_length: next_cfi.wrapping_sub(start),
                                    fde_instructions: loc4,
                                    pc_start,
                                    pc_end: pc_start.wrapping_add(pc_range),
                                    lsda,
                                }),
                                cie,
                            ),
                        ),
                    }
                },
            }
        },
    }
}

/// The optional FDE augmentation block: its length, and the LSDA pointer
/// when the CIE announces one. Yields the LSDA (0 when absent) and the
/// position after the block, where the CFI instructions start.
pub open spec fn spec_fde_aug(
    m: Memory,
    next_cfi: u64,
    loc: u64,
    cie: CommonInformationEntry,
) -> Result<(u64, u64), DwarfError> {
    if !cie.fdes_have_augmentation_data {
        Ok((0, loc))
    } else {
        match spec_uleb128(m, loc, next_cfi) {
            Err(e) => Err(e),
            Ok((aug_len, loc2)) => {
                let end_of_aug = loc2.wrapping_add(aug_len);
                if cie.lsda_encoding != DW_EH_PE_OMIT {
                    // Peek at the value without indirection; zero means no LSDA.
                    match spec_pointer(m, loc2, next_cfi, (cie.lsda_encoding & 0x0f) as u8, 0) {
                        Err(e) => Err(e),
                        Ok((peek, _)) => {
                            if peek != 0 {
                                match spec_pointer(m, loc2, next_cfi, cie.lsda_encoding, 0) {
                                    Err(e) => Err(e),
                                    Ok((lsda, _)) => Ok((lsda, end_of_aug)),
                                }
                            } else {
                                Ok((0, end_of_aug))
                            }
                        },
                    }
                } else {
                    Ok((0, end_of_aug))
                }
            },
        }
    }
}

impl FrameDescriptionEntry {
    /// Parse the FDE record at `start` into a [`FrameDescriptionEntry`] and
    /// its owning [`CommonInformationEntry`]. An FDE whose CIE pointer is
    /// zero is really a CIE, and is rejected as [`DwarfError::FDEIsReallyCIE`].
    pub fn decode(m: &Memory, start: u64) -> (r: Result<
        (FrameDescriptionEntry, CommonInformationEntry),
        DwarfError,
    >)
        ensures
            r == spec_fde(*m, start),
    {
        proof {
            reveal(spec_fde);
        }
        // Parse the length, following the 64-bit escape.
        let (length, mut loc, next_cfi) = match read_record_length(m, start) {
            Ok(v) => v,
            Err(e) => return Err(e),
        };
        if length == 0 {
            return Err(DwarfError::FDEZeroLength);
        }

        // The CIE pointer is the self-relative offset back to the owning CIE.
        let cie_ptr = match m.read_u32(loc) {
            Ok(v) => v,
            Err(e) => return Err(e),
        };
        if cie_ptr == 0 {
            return Err(DwarfError::FDEIsReallyCIE);
        }
        let cie_start = loc.wrapping_sub(cie_ptr as u64);
        let cie = match CommonInformationEntry::decode(m, cie_start) {
            Ok(v) => v,
            Err(e) => return Err(e),
        };
        loc = loc.wrapping_add(4);

        // The PC range the FDE covers.
        let pc_start = match decode_pointer(m, &mut loc, next_cfi, cie.pointer_encoding, 0) {
            Ok(v) => v,
            Err(e) => return Err(e),
        };
        let pc_range = match decode_pointer(m, &mut loc, next_cfi, cie.pointer_encoding & 0x0f, 0) {
            Ok(v) => v,
            Err(e) => return Err(e),
        };

        // The optional augmentation block, holding the LSDA.
        let mut lsda: u64 = 0;
        if cie.fdes_have_augmentation_data {
            let aug_len = match decode_uleb128(m, &mut loc, next_cfi) {
                Ok(v) => v,
                Err(e) => return Err(e),
            };
            let end_of_augmentation = loc.wrapping_add(aug_len);
            if cie.lsda_encoding != DW_EH_PE_OMIT {
                // Peek at the value without indirection; zero means no LSDA.
                let lsda_start = loc;
                let peek = match decode_pointer(m, &mut loc, next_cfi, cie.lsda_encoding & 0x0f, 0)
                    {
                    Ok(v) => v,
                    Err(e) => return Err(e),
                };
                if peek != 0 {
                    // Reset the cursor and re-parse the LSDA address fully.
                    loc = lsda_start;
                    lsda = match decode_pointer(m, &mut loc, next_cfi, cie.lsda_encoding, 0) {
                        Ok(v) => v,
                        Err(e) => return Err(e),
                    };
                }
            }
            loc = end_of_augmentation;
        }
        Ok(
            (
                FrameDescriptionEntry {
                    fde_start: start,
                    fde_length: next_cfi.wrapping_sub(start),
                    fde_instructions: loc,
                    pc_start,
                    pc_end: pc_start.wrapping_add(pc_range),
                    lsda,
                },
                cie,
            ),
        )
    }

    /// Whether `target` lies in the FDE's `[pc_start, pc_end)` range.
    pub open spec fn spec_contains(self, target: u64) -> bool {
        self.pc_start <= target && target < self.pc_end
    }

    /// Determine whether the target address is in the current FDE.
    pub fn contains(&self, target: u64) -> (r: bool)
        ensures
            r == self.spec_contains(target),
    {
        self.pc_start <= target && target < self.pc_end
    }
}

/// One record of an `.eh_frame` section: a CIE, or an FDE paired with its
/// owning CIE.
#[derive(Debug)]
pub enum CfiEntry {
    Cie(CommonInformationEntry),
    FdeCie((FrameDescriptionEntry, CommonInformationEntry)),
}

/// The record at `eh_frame`, and the position of the record after it:
/// `None` at the zero terminator or at the end of the section.
#[verifier::opaque]
pub open spec fn spec_entries_next(
    m: Memory,
    eh_frame: u64,
    eh_frame_end: u64,
) -> Result<Option<(CfiEntry, u64)>, DwarfError> {
    if eh_frame >= eh_frame_end {
        Ok(None)
    } else {
        match spec_record_length(m, eh_frame) {
            Err(e) => Err(e),
            Ok((cfi_length, loc, _)) => {
                if cfi_length == 0 {
                    // The zero terminator ends the section.
                    Ok(None)
                } else {
                    match m.u32_at(loc) {
                        Option::None => Err(DwarfError::UnreadableAddress(loc)),
                        Option::Some(cie_id) => {
                            if cie_id == 0 {
                                match spec_cie(m, eh_frame) {
                                    Err(e) => Err(e),
                                    Ok(cie) => Ok(
                                        Some(
                                            (
                                                CfiEntry::Cie(cie),
                                                eh_frame.wrapping_add(cie.cie_length),
                                            ),
                                        ),
                                    ),
                                }
                            } else {
                                match spec_fde(m, eh_frame) {
                                    Err(e) => Err(e),
                                    Ok((fde, cie)) => Ok(
                                        Some(
                                            (
                                                CfiEntry::FdeCie((fde, cie)),
                                                eh_frame.wrapping_add(fde.fde_length),
                                            ),
                                        ),
                                    ),
                                }
                            }
                        },
                    }
                }
            },
        }
    }
}

/// A sequential reader over the records of an `.eh_frame` section.
pub struct Entries {
    pub eh_frame: u64,
    pub eh_frame_end: u64,
}

impl Entries {
    /// A reader over the section at `eh_frame`. A length of `u64::MAX`
    /// stands for "unknown": reading then stops only at the zero terminator.
    pub fn new(eh_frame: u64, eh_frame_len: u64) -> (r: Entries)
        ensures
            r.eh_frame == eh_frame,
            r.eh_frame_end == (if eh_frame_len == u64::MAX {
                u64::MAX
            } else {
                eh_frame.wrapping_add(eh_frame_len)
            }),
    {
        let eh_frame_end = if eh_frame_len == u64::MAX {
            u64::MAX
        } else {
            eh_frame.wrapping_add(eh_frame_len)
        };
        Entries { eh_frame, eh_frame_end }
    }

    /// Read the record at the cursor and advance past it. Yields `None` at
    /// the zero terminator or the end of the section.
    pub fn next(&mut self, m: &Memory) -> (r: Result<Option<CfiEntry>, DwarfError>)
        ensures
            final(self).eh_frame_end == old(self).eh_frame_end,
            match r {
                Ok(Some(entry)) => spec_entries_next(
                    *m,
                    old(self).eh_frame,
                    old(self).eh_frame_end,
                ) matches Ok(Some((e, next))) && e == entry && next == final(self).eh_frame,
                Ok(None) => spec_entries_next(*m, old(self).eh_frame, old(self).eh_frame_end)
                    == Ok::<Option<(CfiEntry, u64)>, DwarfError>(None) && final(self).eh_frame
                    == old(self).eh_frame,
                Err(e) => spec_entries_next(*m, old(self).eh_frame, old(self).eh_frame_end)
                    == Err::<Option<(CfiEntry, u64)>, DwarfError>(e),
            },
    {
        proof {
            reveal(spec_entries_next);
        }
        if self.eh_frame >= self.eh_frame_end {
            return Ok(None);
        }

        // Parse the record length.
        let (cfi_length, loc, _) = match read_record_length(m, self.eh_frame) {
            Ok(v) => v,
            Err(e) => return Err(e),
        };
        if cfi_length == 0 {
            // The zero terminator ends the section.
            return Ok(None);
        }

        // A zero CIE-ID marks a CIE; anything else an FDE.
        let cie_id = match m.read_u32(loc) {
            Ok(v) => v,
            Err(e) => return Err(e),
        };
        if cie_id == 0 {
            let cie = match CommonInformationEntry::decode(m, self.eh_frame) {
                Ok(v) => v,
                Err(e) => return Err(e),
            };
            self.eh_frame = self.eh_frame.wrapping_add(cie.cie_length);
            Ok(Some(CfiEntry::Cie(cie)))
        } else {
            let (fde, cie) = match FrameDescriptionEntry::decode(m, self.eh_frame) {
                Ok(v) => v,
                Err(e) => return Err(e),
            };
            self.eh_frame = self.eh_frame.wrapping_add(fde.fde_length);
            Ok(Some(CfiEntry::FdeCie((fde, cie))))
        }
    }
}

/// What a full scan of the `.eh_frame` records in `[eh_frame, eh_frame_end)`
/// yields for `target`: the first FDE containing it, or
/// [`DwarfError::FDENotFound`]. A record that fails to advance the cursor
/// ends the scan.
pub open spec fn spec_scan(
    m: Memory,
    eh_frame: u64,
    eh_frame_end: u64,
    target: u64,
) -> Result<(FrameDescriptionEntry, CommonInformationEntry), DwarfError>
    decreases eh_frame_end - eh_frame,
{
    match spec_entries_next(m, eh_frame, eh_frame_end) {
        Err(e) => Err(e),
        Ok(None) => Err(DwarfError::FDENotFound),
        Ok(Some((entry, next))) => match entry {
            CfiEntry::FdeCie(fc) => {
                if fc.0.spec_contains(target) {
                    Ok(fc)
                } else if next <= eh_frame || next >= eh_frame_end {
                    Err(DwarfError::FDENotFound)
                } else {
                    spec_scan(m, next, eh_frame_end, target)
                }
            },
            CfiEntry::Cie(_) => {
                if next <= eh_frame || next >= eh_frame_end {
                    Err(DwarfError::FDENotFound)
                } else {
                    spec_scan(m, next, eh_frame_end, target)
                }
            },
        },
    }
}

/// Scan a whole `.eh_frame` section for the FDE covering `target`. Pass
/// `u64::MAX` as `eh_frame_len` when the section's length is unknown.
#[verifier::rlimit(60)]
pub fn scan(m: &Memory, eh_frame: u64, eh_frame_len: u64, target: u64) -> (r: Result<
    (FrameDescriptionEntry, CommonInformationEntry),
    DwarfError,
>)
    ensures
        r == spec_scan(
            *m,
            eh_frame,
            if eh_frame_len == u64::MAX {
                u64::MAX
            } else {
                eh_frame.wrapping_add(eh_frame_len)
            },
            target,
        ),
        r matches Ok(fc) ==> fc.0.spec_contains(target),
{
    let mut entries = Entries::new(eh_frame, eh_frame_len);
    let ghost end: u64 = entries.eh_frame_end;
    loop
        invariant
            entries.eh_frame_end == end,
            end == (if eh_frame_len == u64::MAX {
                u64::MAX
            } else {
                eh_frame.wrapping_add(eh_frame_len)
            }),
            spec_scan(*m, eh_frame, end, target) == spec_scan(*m, entries.eh_frame, end, target),
        decreases end - entries.eh_frame,
    {
        let before: u64 = entries.eh_frame;
        let entry = match entries.next(m) {
            Ok(Some(v)) => v,
            Ok(None) => return Err(DwarfError::FDENotFound),
            Err(e) => return Err(e),
        };
        match entry {
            CfiEntry::Cie(_) => {},
            CfiEntry::FdeCie((fde, cie)) => {
                if fde.contains(target) {
                    return Ok((fde, cie));
                }
            },
        }
        if entries.eh_frame <= before || entries.eh_frame >= entries.eh_frame_end {
            return Err(DwarfError::FDENotFound);
        }
    }
}

/// A record length field of `0xffffffff` announces that the true length is
/// in the eight bytes that follow; smaller values are the length itself.
pub proof fn lemma_record_length_escape(m: Memory, start: u64, l64: u64)
    requires
        m.u32_at(start) == Some(0xffffffff_u32),
        m.u64_at(start.wrapping_add(4)) == Some(l64),
    ensures
        spec_record_length(m, start) == Ok::<(u64, u64, u64), DwarfError>(
            (l64, start.wrapping_add(12), start.wrapping_add(12).wrapping_add(l64)),
        ),
{
    assert(start.wrapping_add(4).wrapping_add(8) == start.wrapping_add(12)) by (bit_vector);
}

/// A record length of zero is the `.eh_frame` zero terminator: reading the
/// records ends there, with no error.
pub proof fn lemma_zero_length_terminates(m: Memory, eh_frame: u64, eh_frame_end: u64)
    requires
        eh_frame < eh_frame_end,
        spec_record_length(m, eh_frame) matches Ok(t) && t.0 == 0,
    ensures
        spec_entries_next(m, eh_frame, eh_frame_end) == Ok::<Option<(CfiEntry, u64)>, DwarfError>(
            None,
        ),
{
    reveal(spec_entries_next);
}

/// A record parsed as an FDE whose CIE pointer is zero is really a CIE:
/// the parse rejects it as [`DwarfError::FDEIsReallyCIE`].
pub proof fn lemma_fde_with_zero_cie_ptr_is_cie(m: Memory, start: u64)
    requires
        spec_record_length(m, start) matches Ok(t) && t.0 != 0 && m.u32_at(t.1) == Some(0u32),
    ensures
        spec_fde(m, start) == Err::<(FrameDescriptionEntry, CommonInformationEntry), DwarfError>(
            DwarfError::FDEIsReallyCIE,
        ),
{
    reveal(spec_fde);
}

} // verus!

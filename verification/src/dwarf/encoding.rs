//! The DWARF pointer codec: ULEB128 / SLEB128 readers and the
//! pointer-encoding decoder used throughout `.eh_frame` records.
//!
//! Each executable decoder is specified against a specification-level twin
//! (`spec_uleb128`, `spec_sleb128`, `spec_pointer`) that states, byte for
//! byte, what the decoder returns on every memory image.

use vstd::prelude::*;

use crate::dwarf::consts::{
    DW_EH_PE_ABSPTR, DW_EH_PE_DATAREL, DW_EH_PE_INDIRECT, DW_EH_PE_PCREL, DW_EH_PE_PTR,
    DW_EH_PE_SDATA2, DW_EH_PE_SDATA4, DW_EH_PE_SDATA8, DW_EH_PE_SLEB128, DW_EH_PE_UDATA2,
    DW_EH_PE_UDATA4, DW_EH_PE_UDATA8, DW_EH_PE_ULEB128,
};
use crate::dwarf::DwarfError;
use crate::mem::Memory;

verus! {

/// What a ULEB128 read at `loc` yields: the decoded value and the position
/// after the encoding, or the error. `bit` and `acc` carry the bits decoded
/// so far.
pub open spec fn spec_uleb128_rec(
    m: Memory,
    loc: u64,
    end: u64,
    bit: u64,
    acc: u64,
) -> Result<(u64, u64), DwarfError>
    decreases end - loc,
{
    if loc >= end {
        Err(DwarfError::TruncatedUleb128Expression(loc))
    } else {
        match m.byte_at(loc) {
            Option::None => Err(DwarfError::UnreadableAddress(loc)),
            Option::Some(byte) => {
                let b = (byte & 0x7f) as u64;
                if bit >= 64 || (b << bit) >> bit != b {
                    Err(DwarfError::MalformedUleb128Expression(loc))
                } else {
                    let acc2 = acc | (b << bit);
                    if byte < 0x80 {
                        Ok((acc2, (loc + 1) as u64))
                    } else {
                        spec_uleb128_rec(m, (loc + 1) as u64, end, (bit + 7) as u64, acc2)
                    }
                }
            },
        }
    }
}

/// The value and end position of the ULEB128 encoded at `loc`.
pub open spec fn spec_uleb128(m: Memory, loc: u64, end: u64) -> Result<(u64, u64), DwarfError> {
    spec_uleb128_rec(m, loc, end, 0, 0)
}

/// Read a ULEB128 into a 64-bit word. On success `loc` is left one past the
/// final byte of the encoding; the read never walks past `end`.
pub fn decode_uleb128(m: &Memory, loc: &mut u64, end: u64) -> (r: Result<u64, DwarfError>)
    ensures
        match r {
            Ok(v) => spec_uleb128(*m, *old(loc), end) == Ok::<(u64, u64), DwarfError>((v, *final(loc)))
                && *old(loc) < *final(loc) <= end,
            Err(e) => spec_uleb128(*m, *old(loc), end) == Err::<(u64, u64), DwarfError>(e),
        },
{
    let mut res: u64 = 0;
    let mut bit: u64 = 0;
    loop
        invariant
            *old(loc) <= *loc,
            spec_uleb128(*m, *old(loc), end) == spec_uleb128_rec(*m, *loc, end, bit, res),
        decreases end - *loc,
    {
        if *loc >= end {
            return Err(DwarfError::TruncatedUleb128Expression(*loc));
        }
        let byte = match m.read_u8(*loc) {
            Ok(b) => b,
            Err(e) => {
                return Err(e);
            },
        };
        let b = (byte & 0x7f) as u64;
        if bit >= 64 || (b << bit) >> bit != b {
            return Err(DwarfError::MalformedUleb128Expression(*loc));
        }
        res = res | (b << bit);
        bit = bit + 7;
        *loc = *loc + 1;
        if byte < 0x80 {
            return Ok(res);
        }
    }
}

/// One pass of SLEB128 reading: the raw accumulated bits, the bit position
/// after the final byte, the final byte itself, and the position after the
/// encoding.
pub open spec fn spec_sleb128_rec(
    m: Memory,
    loc: u64,
    end: u64,
    bit: u64,
    acc: u64,
) -> Result<(u64, u64, u8, u64), DwarfError>
    decreases end - loc,
{
    if loc >= end {
        Err(DwarfError::TruncatedSleb128Expression(loc))
    } else {
        match m.byte_at(loc) {
            Option::None => Err(DwarfError::UnreadableAddress(loc)),
            Option::Some(byte) => {
                let acc2 = if bit < 64 {
                    acc | ((byte & 0x7f) as u64) << bit
                } else {
                    acc
                };
                let bit2 = if bit < 64 {
                    (bit + 7) as u64
                } else {
                    bit
                };
                if byte & 0x80 == 0 {
                    Ok((acc2, bit2, byte, (loc + 1) as u64))
                } else {
                    spec_sleb128_rec(m, (loc + 1) as u64, end, bit2, acc2)
                }
            },
        }
    }
}

/// The value and end position of the SLEB128 encoded at `loc`, with the
/// final sign extension applied.
pub open spec fn spec_sleb128(m: Memory, loc: u64, end: u64) -> Result<(i64, u64), DwarfError> {
    match spec_sleb128_rec(m, loc, end, 0, 0) {
        Ok((acc, bit, last, next)) => {
            let v = if last & 0x40 != 0 && bit < 64 {
                (acc | (u64::MAX << bit)) as i64
            } else {
                acc as i64
            };
            Ok((v, next))
        },
        Err(e) => Err(e),
    }
}

/// Read a SLEB128 into a 64-bit word, sign-extending negative values. On
/// success `loc` is left one past the final byte of the encoding.
pub fn decode_sleb128(m: &Memory, loc: &mut u64, end: u64) -> (r: Result<i64, DwarfError>)
    ensures
        match r {
            Ok(v) => spec_sleb128(*m, *old(loc), end) == Ok::<(i64, u64), DwarfError>((v, *final(loc)))
                && *old(loc) < *final(loc) <= end,
            Err(e) => spec_sleb128(*m, *old(loc), end) == Err::<(i64, u64), DwarfError>(e),
        },
{
    let mut res: u64 = 0;
    let mut bit: u64 = 0;
    loop
        invariant
            *old(loc) <= *loc,
            spec_sleb128_rec(*m, *old(loc), end, 0, 0) == spec_sleb128_rec(*m, *loc, end, bit, res),
        decreases end - *loc,
    {
        if *loc >= end {
            return Err(DwarfError::TruncatedSleb128Expression(*loc));
        }
        let byte = match m.read_u8(*loc) {
            Ok(b) => b,
            Err(e) => {
                return Err(e);
            },
        };
        if bit < 64 {
            res = res | ((byte & 0x7f) as u64) << bit;
            bit = bit + 7;
        }
        *loc = *loc + 1;
        if byte & 0x80 == 0 {
            // Sign-extend negative numbers.
            if byte & 0x40 != 0 && bit < 64 {
                res = res | (u64::MAX << bit);
            }
            return Ok(res as i64);
        }
    }
}

/// What decoding a pointer with encoding `enc` at `loc` yields: the decoded
/// address and the position after the encoded bytes, or the error. Signed
/// and overflowing additions wrap, as the relocation arithmetic requires.
#[verifier::opaque]
pub open spec fn spec_pointer(
    m: Memory,
    loc: u64,
    end: u64,
    enc: u8,
    datarel_base: u64,
) -> Result<(u64, u64), DwarfError> {
    let offs_bits = (enc & 0x70) as u8;
    if offs_bits != DW_EH_PE_ABSPTR && offs_bits != DW_EH_PE_PCREL && offs_bits
        != DW_EH_PE_DATAREL {
        Err(DwarfError::InvalidPointerEncodingOffset(offs_bits))
    } else if offs_bits == DW_EH_PE_DATAREL && datarel_base == 0 {
        Err(DwarfError::InvalidDataRelBase)
    } else {
        let offset = if offs_bits == DW_EH_PE_PCREL {
            loc
        } else if offs_bits == DW_EH_PE_DATAREL {
            datarel_base
        } else {
            0
        };
        match spec_pointer_value(m, loc, end, (enc & 0x0f) as u8, offset) {
            Ok((res, next)) => {
                if enc & DW_EH_PE_INDIRECT != 0 {
                    match m.u64_at(res) {
                        Option::Some(v) => Ok((v, next)),
                        Option::None => Err(DwarfError::UnreadableAddress(res)),
                    }
                } else {
                    Ok((res, next))
                }
            },
            Err(e) => Err(e),
        }
    }
}

/// The raw encoded value at `loc` (width selected by the low nibble of the
/// encoding), already relocated by `offset` with wrapping arithmetic.
pub open spec fn spec_pointer_value(
    m: Memory,
    loc: u64,
    end: u64,
    width_bits: u8,
    offset: u64,
) -> Result<(u64, u64), DwarfError> {
    if width_bits == DW_EH_PE_PTR || width_bits == DW_EH_PE_UDATA8 {
        match m.u64_at(loc) {
            Option::Some(v) => Ok(
                (v.wrapping_add(offset), loc.wrapping_add(8)),
            ),
            Option::None => Err(DwarfError::UnreadableAddress(loc)),
        }
    } else if width_bits == DW_EH_PE_ULEB128 {
        match spec_uleb128(m, loc, end) {
            Ok((v, next)) => Ok((v.wrapping_add(offset), next)),
            Err(e) => Err(e),
        }
    } else if width_bits == DW_EH_PE_UDATA2 {
        match m.u16_at(loc) {
            Option::Some(v) => Ok(
                ((v as u64).wrapping_add(offset), loc.wrapping_add(2)),
            ),
            Option::None => Err(DwarfError::UnreadableAddress(loc)),
        }
    } else if width_bits == DW_EH_PE_UDATA4 {
        match m.u32_at(loc) {
            Option::Some(v) => Ok(
                ((v as u64).wrapping_add(offset), loc.wrapping_add(4)),
            ),
            Option::None => Err(DwarfError::UnreadableAddress(loc)),
        }
    } else if width_bits == DW_EH_PE_SLEB128 {
        match spec_sleb128(m, loc, end) {
            Ok((v, next)) => Ok((offset.wrapping_add(v as u64), next)),
            Err(e) => Err(e),
        }
    } else if width_bits == DW_EH_PE_SDATA2 {
        match m.u16_at(loc) {
            Option::Some(v) => Ok(
                (offset.wrapping_add(((v as i16) as i64) as u64), loc.wrapping_add(2)),
            ),
            Option::None => Err(DwarfError::UnreadableAddress(loc)),
        }
    } else if width_bits == DW_EH_PE_SDATA4 {
        match m.u32_at(loc) {
            Option::Some(v) => Ok(
                (offset.wrapping_add(((v as i32) as i64) as u64), loc.wrapping_add(4)),
            ),
            Option::None => Err(DwarfError::UnreadableAddress(loc)),
        }
    } else if width_bits == DW_EH_PE_SDATA8 {
        match m.u64_at(loc) {
            Option::Some(v) => Ok(
                (offset.wrapping_add(v), loc.wrapping_add(8)),
            ),
            Option::None => Err(DwarfError::UnreadableAddress(loc)),
        }
    } else {
        Err(DwarfError::InvalidPointerEncodingValue(width_bits))
    }
}

/// Decode a pointer-encoded value at `loc`.
///
/// The low nibble of `enc` selects the width, bits 4 to 6 the relocation
/// base (absolute, pc-relative at `loc`, or `datarel_base`), and bit 7 asks
/// for one final dereference. Relocation arithmetic wraps.
pub fn decode_pointer(
    m: &Memory,
    loc: &mut u64,
    end: u64,
    enc: u8,
    datarel_base: u64,
) -> (r: Result<u64, DwarfError>)
    ensures
        match r {
            Ok(v) => spec_pointer(*m, *old(loc), end, enc, datarel_base) == Ok::<
                (u64, u64),
                DwarfError,
            >((v, *final(loc))),
            Err(e) => spec_pointer(*m, *old(loc), end, enc, datarel_base) == Err::<
                (u64, u64),
                DwarfError,
            >(e),
        },
{
    proof {
        reveal(spec_pointer);
    }
    // Calculate the relocation offset.
    let offs_bits = enc & 0x70;
    if offs_bits != DW_EH_PE_ABSPTR && offs_bits != DW_EH_PE_PCREL && offs_bits
        != DW_EH_PE_DATAREL {
        return Err(DwarfError::InvalidPointerEncodingOffset(offs_bits));
    }
    if offs_bits == DW_EH_PE_DATAREL && datarel_base == 0 {
        // A data-relative encoding is only valid in the few places that
        // supply a base; report the encodings that reach here without one.
        return Err(DwarfError::InvalidDataRelBase);
    }
    let offset = if offs_bits == DW_EH_PE_PCREL {
        *loc
    } else if offs_bits == DW_EH_PE_DATAREL {
        datarel_base
    } else {
        0
    };

    // Read the value.
    let width_bits = enc & 0x0f;
    let mut res: u64;
    if width_bits == DW_EH_PE_PTR || width_bits == DW_EH_PE_UDATA8 {
        let v = match m.read_u64(*loc) {
            Ok(v) => v,
            Err(e) => return Err(e),
        };
        res = v.wrapping_add(offset);
        *loc = loc.wrapping_add(8);
    } else if width_bits == DW_EH_PE_ULEB128 {
        let v = match decode_uleb128(m, loc, end) {
            Ok(v) => v,
            Err(e) => return Err(e),
        };
        res = v.wrapping_add(offset);
    } else if width_bits == DW_EH_PE_UDATA2 {
        let v = match m.read_u16(*loc) {
            Ok(v) => v,
            Err(e) => return Err(e),
        };
        res = (v as u64).wrapping_add(offset);
        *loc = loc.wrapping_add(2);
    } else if width_bits == DW_EH_PE_UDATA4 {
        let v = match m.read_u32(*loc) {
            Ok(v) => v,
            Err(e) => return Err(e),
        };
        res = (v as u64).wrapping_add(offset);
        *loc = loc.wrapping_add(4);
    } else if width_bits == DW_EH_PE_SLEB128 {
        let v = match decode_sleb128(m, loc, end) {
            Ok(v) => v,
            Err(e) => return Err(e),
        };
        res = offset.wrapping_add(v as u64);
    } else if width_bits == DW_EH_PE_SDATA2 {
        let v = match m.read_u16(*loc) {
            Ok(v) => v,
            Err(e) => return Err(e),
        };
        res = offset.wrapping_add(((v as i16) as i64) as u64);
        *loc = loc.wrapping_add(2);
    } else if width_bits == DW_EH_PE_SDATA4 {
        let v = match m.read_u32(*loc) {
            Ok(v) => v,
            Err(e) => return Err(e),
        };
        res = offset.wrapping_add(((v as i32) as i64) as u64);
        *loc = loc.wrapping_add(4);
    } else if width_bits == DW_EH_PE_SDATA8 {
        let v = match m.read_u64(*loc) {
            Ok(v) => v,
            Err(e) => return Err(e),
        };
        res = offset.wrapping_add(v);
        *loc = loc.wrapping_add(8);
    } else {
        return Err(DwarfError::InvalidPointerEncodingValue(width_bits));
    }

    // Dereference the pointer if the encoding asks for it.
    if enc & DW_EH_PE_INDIRECT != 0 {
        res = match m.read_u64(res) {
            Ok(v) => v,
            Err(e) => return Err(e),
        };
    }
    Ok(res)
}

/// Whether memory holds exactly `bytes` starting at `loc`, with no
/// wrap-around of the address space.
pub open spec fn bytes_at(m: Memory, loc: u64, bytes: Seq<u8>) -> bool
    decreases bytes.len(),
{
    bytes.len() == 0 || (m.byte_at(loc) == Some(bytes[0]) && loc < u64::MAX && bytes_at(
        m,
        (loc + 1) as u64,
        bytes.drop_first(),
    ))
}

/// The canonical ULEB128 encoding of `v`: seven bits per byte, least
/// significant first, the high bit marking continuation.
pub open spec fn spec_uleb128_encode(v: u64) -> Seq<u8>
    decreases v,
{
    if v < 128 {
        seq![v as u8]
    } else {
        seq![(v % 128 + 128) as u8] + spec_uleb128_encode((v / 128) as u64)
    }
}

/// The inductive core of the ULEB128 round trip: with `bit` bits already
/// decoded into `acc` and the remaining value `v` encoded at `loc`, the
/// decoder finishes with `acc | (v << bit)` and the cursor one past the
/// encoding.
proof fn lemma_uleb128_roundtrip_rec(m: Memory, loc: u64, end: u64, bit: u64, acc: u64, v: u64)
    requires
        bytes_at(m, loc, spec_uleb128_encode(v)),
        loc + spec_uleb128_encode(v).len() <= end,
        end <= u64::MAX,
        bit <= 63,
        v <= u64::MAX >> bit,
    ensures
        spec_uleb128_rec(m, loc, end, bit, acc) == Ok::<(u64, u64), DwarfError>(
            ((acc | (v << bit)), (loc + spec_uleb128_encode(v).len()) as u64),
        ),
    decreases v,
{
    let enc = spec_uleb128_encode(v);
    if v < 128 {
        let byte = (v as u8);
        assert(m.byte_at(loc) == Some(byte));
        assert(((byte & 0x7f) as u64) == v && byte < 0x80) by (bit_vector)
            requires
                v < 128 && byte == (v as u8),
        ;
        assert((v << bit) >> bit == v) by (bit_vector)
            requires
                bit <= 63 && v <= u64::MAX >> bit,
        ;
    } else {
        let byte = (v % 128 + 128) as u8;
        let b = (byte & 0x7f) as u64;
        let v2 = (v / 128) as u64;
        assert(m.byte_at(loc) == Some(byte));
        assert(b == v % 128 && byte >= 0x80) by (bit_vector)
            requires
                v >= 128 && byte == (v % 128 + 128) as u8 && b == (byte & 0x7f) as u64,
        ;
        assert(bit <= 56) by (bit_vector)
            requires
                v >= 128 && bit <= 63 && v <= u64::MAX >> bit,
        ;
        let bit7 = (bit + 7) as u64;
        assert(b <= u64::MAX >> bit && (b << bit) >> bit == b && v2 <= u64::MAX >> bit7) by (
        bit_vector)
            requires
                v >= 128 && bit <= 56 && bit7 == bit + 7 && v <= u64::MAX >> bit && b == v % 128
                    && v2 == v / 128,
        ;
        assert(enc.drop_first() =~= spec_uleb128_encode(v2));
        lemma_uleb128_roundtrip_rec(m, (loc + 1) as u64, end, bit7, acc | (b << bit), v2);
        assert((acc | (b << bit)) | (v2 << bit7) == acc | (v << bit)) by (bit_vector)
            requires
                v >= 128 && bit <= 56 && bit7 == bit + 7 && v <= u64::MAX >> bit && b == v % 128
                    && v2 == v / 128,
        ;
    }
}

/// Decoding inverts encoding: the ULEB128 encoding of any 64-bit value,
/// placed anywhere in memory with room before `end`, decodes to exactly
/// that value, and the cursor advances by exactly the encoding's length.
pub proof fn lemma_uleb128_roundtrip(m: Memory, loc: u64, end: u64, v: u64)
    requires
        bytes_at(m, loc, spec_uleb128_encode(v)),
        loc + spec_uleb128_encode(v).len() <= end,
        end <= u64::MAX,
    ensures
        spec_uleb128(m, loc, end) == Ok::<(u64, u64), DwarfError>(
            (v, (loc + spec_uleb128_encode(v).len()) as u64),
        ),
{
    assert(v <= u64::MAX >> 0u64 && 0u64 | (v << 0u64) == v) by (bit_vector);
    lemma_uleb128_roundtrip_rec(m, loc, end, 0, 0, v);
}

/// Whether a SLEB128 encoding ends with the chunk of `v` at hand: the rest
/// of the value is pure sign bits already captured by the chunk's bit 6.
pub open spec fn sleb_done(v: i64) -> bool {
    (v >> 7u64 == 0 && v & 0x40 == 0) || (v >> 7u64 == -1 && v & 0x40 != 0)
}

/// A termination measure for SLEB128 encoding: the magnitude of the
/// remaining bits, for either sign.
pub open spec fn sleb_measure(v: i64) -> u64 {
    if v >= 0 {
        v as u64
    } else {
        !(v as u64)
    }
}

/// The canonical SLEB128 encoding of `v`: seven bits per byte, least
/// significant first, ending once only sign bits remain.
pub open spec fn spec_sleb128_encode(v: i64) -> Seq<u8>
    decreases sleb_measure(v),
    via spec_sleb128_encode_decreases
{
    if sleb_done(v) {
        seq![(v & 0x7f) as u8]
    } else {
        seq![((v & 0x7f) | 0x80) as u8] + spec_sleb128_encode(v >> 7u64)
    }
}

#[via_fn]
proof fn spec_sleb128_encode_decreases(v: i64) {
    assert(!(((v >> 7u64) == 0 && v & 0x40 == 0) || ((v >> 7u64) == -1 && v & 0x40 != 0)) ==> (
    if (v >> 7u64) >= 0 {
        (v >> 7u64) as u64
    } else {
        !((v >> 7u64) as u64)
    }) < (if v >= 0 {
        v as u64
    } else {
        !(v as u64)
    })) by (bit_vector);
}

/// The inductive core of the SLEB128 round trip: with the low `bit` bits of
/// `v0` already decoded into `acc` and the rest encoded at `loc`, the
/// decoder's accumulated bits, once sign-extended, are exactly `v0`'s bit
/// pattern, with the cursor one past the encoding.
proof fn lemma_sleb128_roundtrip_rec(m: Memory, loc: u64, end: u64, bit: u64, acc: u64, v0: i64)
    requires
        bytes_at(m, loc, spec_sleb128_encode(v0 >> bit)),
        loc + spec_sleb128_encode(v0 >> bit).len() <= end,
        end <= u64::MAX,
        bit <= 63,
        bit % 7 == 0,
        acc == (v0 as u64) & !(u64::MAX << bit),
    ensures
        spec_sleb128_rec(m, loc, end, bit, acc) matches Ok(t) && t.3 == (loc
            + spec_sleb128_encode(v0 >> bit).len()) as u64 && (if t.2 & 0x40 != 0 && t.1 < 64 {
            t.0 | (u64::MAX << t.1)
        } else {
            t.0
        }) == v0 as u64,
    decreases spec_sleb128_encode(v0 >> bit).len(),
{
    let v = v0 >> bit;
    let enc = spec_sleb128_encode(v);
    if sleb_done(v) {
        let byte = (v & 0x7f) as u8;
        assert(m.byte_at(loc) == Some(byte));
        let b = (byte & 0x7f) as u64;
        let bit7 = (bit + 7) as u64;
        assert(byte & 0x80 == 0 && b == ((v0 >> bit) & 0x7f) as u64) by (bit_vector)
            requires
                byte == ((v0 >> bit) & 0x7f) as u8 && b == (byte & 0x7f) as u64,
        ;
        assert((if byte & 0x40 != 0 && bit7 < 64 {
            (acc | (b << bit)) | (u64::MAX << bit7)
        } else {
            acc | (b << bit)
        }) == v0 as u64) by (bit_vector)
            requires
                bit <= 63 && bit % 7 == 0 && bit7 == bit + 7 && acc == (v0 as u64) & !(u64::MAX
                    << bit) && byte == ((v0 >> bit) & 0x7f) as u8 && b == (byte & 0x7f) as u64 && ((
                (v0 >> bit) >> 7u64) == 0 && (v0 >> bit) & 0x40 == 0 || ((v0 >> bit) >> 7u64) == -1
                    && (v0 >> bit) & 0x40 != 0),
        ;
    } else {
        let byte = ((v & 0x7f) | 0x80) as u8;
        assert(m.byte_at(loc) == Some(byte));
        let b = (byte & 0x7f) as u64;
        let bit7 = (bit + 7) as u64;
        assert(bit <= 56) by (bit_vector)
            requires
                bit <= 63 && bit % 7 == 0 && !(((v0 >> bit) >> 7u64) == 0 && (v0 >> bit) & 0x40
                    == 0 || ((v0 >> bit) >> 7u64) == -1 && (v0 >> bit) & 0x40 != 0),
        ;
        assert(byte & 0x80 != 0 && (acc | (b << bit)) == (v0 as u64) & !(u64::MAX << bit7) && (v0
            >> bit) >> 7u64 == v0 >> bit7) by (bit_vector)
            requires
                bit <= 56 && bit7 == bit + 7 && acc == (v0 as u64) & !(u64::MAX << bit) && byte == (
                ((v0 >> bit) & 0x7f) | 0x80) as u8 && b == (byte & 0x7f) as u64,
        ;
        assert(enc.drop_first() =~= spec_sleb128_encode(v0 >> bit7));
        lemma_sleb128_roundtrip_rec(m, (loc + 1) as u64, end, bit7, acc | (b << bit), v0);
    }
}

/// Decoding inverts encoding for signed values too: the SLEB128 encoding of
/// any 64-bit signed value, placed anywhere in memory with room before
/// `end`, decodes to exactly that value, and the cursor advances by exactly
/// the encoding's length.
pub proof fn lemma_sleb128_roundtrip(m: Memory, loc: u64, end: u64, v: i64)
    requires
        bytes_at(m, loc, spec_sleb128_encode(v)),
        loc + spec_sleb128_encode(v).len() <= end,
        end <= u64::MAX,
    ensures
        spec_sleb128(m, loc, end) == Ok::<(i64, u64), DwarfError>(
            (v, (loc + spec_sleb128_encode(v).len()) as u64),
        ),
{
    assert(v >> 0u64 == v && 0u64 == (v as u64) & !(u64::MAX << 0u64)) by (bit_vector);
    lemma_sleb128_roundtrip_rec(m, loc, end, 0, 0, v);
    let t = spec_sleb128_rec(m, loc, end, 0, 0)->Ok_0;
    let x = if t.2 & 0x40 != 0 && t.1 < 64 {
        t.0 | (u64::MAX << t.1)
    } else {
        t.0
    };
    assert(x == v as u64 ==> x as i64 == v) by (bit_vector);
}

} // verus!

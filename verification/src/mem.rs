//! An explicit image of the readable address space, and guarded reads from it.
//!
//! The unwinder never dereferences an address directly: every load goes
//! through [`Memory`], which holds the bytes of the readable ranges that the
//! embedding captured. A load outside those ranges fails with
//! [`DwarfError::UnreadableAddress`] instead of faulting.

use vstd::prelude::*;

use crate::dwarf::DwarfError;

verus! {

/// A half-open range of addresses: `[start, end)`.
#[derive(Debug, Copy, Clone, PartialEq, Eq, Structural)]
pub struct AddressRange {
    pub start: u64,
    pub end: u64,
}

impl AddressRange {
    /// Whether `target` lies in `[start, end)`.
    pub open spec fn spec_contains(self, target: u64) -> bool {
        self.start <= target && target < self.end
    }

    /// Determine whether the target address is in the current range.
    pub fn contains(&self, target: u64) -> (r: bool)
        ensures
            r == self.spec_contains(target),
    {
        self.start <= target && target < self.end
    }
}

/// One contiguous run of readable bytes, starting at address `start`.
#[derive(Debug, Clone)]
pub struct Segment {
    pub start: u64,
    pub bytes: Vec<u8>,
}

impl Segment {
    /// The run must not wrap around the top of the address space.
    pub open spec fn wf(self) -> bool {
        self.start + self.bytes@.len() <= u64::MAX + 1
    }

    /// Whether `addr` falls inside this run.
    pub open spec fn spec_contains(self, addr: u64) -> bool {
        self.start <= addr && addr - self.start < self.bytes@.len()
    }

    /// The byte this run holds at `addr` (meaningful when `spec_contains(addr)`).
    pub open spec fn spec_byte_at(self, addr: u64) -> u8 {
        self.bytes@[addr - self.start]
    }
}

/// The byte found at `addr` in the first of `segs` that contains it.
pub open spec fn segments_byte_at(segs: Seq<Segment>, addr: u64) -> Option<u8>
    decreases segs.len(),
{
    if segs.len() == 0 {
        None
    } else if segs[0].spec_contains(addr) {
        Some(segs[0].spec_byte_at(addr))
    } else {
        segments_byte_at(segs.drop_first(), addr)
    }
}

/// An image of the readable address space: a set of byte runs captured by
/// the embedding (text sections, unwind sections, the sampled thread's
/// stack). All reads the unwinder performs are answered from here.
#[derive(Debug, Clone)]
pub struct Memory {
    pub segments: Vec<Segment>,
}

impl Memory {
    /// Every segment is free of address wrap-around.
    pub open spec fn wf(self) -> bool {
        forall|i: int|
            0 <= i < self.segments@.len() ==> (#[trigger] self.segments@[i]).wf()
    }

    /// The byte visible at `addr`, if any.
    pub open spec fn byte_at(self, addr: u64) -> Option<u8> {
        segments_byte_at(self.segments@, addr)
    }

    /// Whether a one-byte load at `addr` succeeds.
    pub open spec fn readable(self, addr: u64) -> bool {
        self.byte_at(addr) is Some
    }

    /// An image with no readable bytes at all.
    pub fn new() -> (r: Memory)
        ensures
            r.segments@.len() == 0,
            r.wf(),
    {
        Memory { segments: Vec::new() }
    }

    /// Add one run of bytes starting at `start`. Runs added earlier take
    /// precedence where runs overlap.
    pub fn add_segment(&mut self, start: u64, bytes: Vec<u8>)
        requires
            start + bytes@.len() <= u64::MAX + 1,
        ensures
            final(self).segments@ == old(self).segments@.push(Segment { start, bytes }),
            old(self).wf() ==> final(self).wf(),
    {
        let seg = Segment { start, bytes };
        self.segments.push(seg);
    }

    /// Load the byte at `addr`, failing where the image holds none.
    pub fn read_u8(&self, addr: u64) -> (r: Result<u8, DwarfError>)
        ensures
            match r {
                Ok(b) => self.byte_at(addr) == Some(b),
                Err(e) => self.byte_at(addr) is None && e == DwarfError::UnreadableAddress(
                    addr,
                ),
            },
    {
        let n = self.segments.len();
        let mut i: usize = 0;
        proof {
            assert(self.segments@.skip(0) =~= self.segments@);
        }
        while i < n
            invariant
                i <= n,
                n == self.segments@.len(),
                segments_byte_at(self.segments@, addr) == segments_byte_at(
                    self.segments@.skip(i as int),
                    addr,
                ),
            decreases n - i,
        {
            let seg = &self.segments[i];
            proof {
                assert(self.segments@.skip(i as int)[0] == self.segments@[i as int]);
                assert(self.segments@.skip(i as int).drop_first() =~= self.segments@.skip(
                    i as int + 1,
                ));
            }
            if seg.start <= addr {
                let off = addr - seg.start;
                if off < seg.bytes.len() as u64 {
                    return Ok(seg.bytes[off as usize]);
                }
            }
            i = i + 1;
        }
        proof {
            assert(self.segments@.skip(n as int) =~= Seq::<Segment>::empty());
        }
        Err(DwarfError::UnreadableAddress(addr))
    }

    /// Whether the target address is readable in this image.
    pub fn address_is_readable(&self, target: u64) -> (r: bool)
        ensures
            r == self.readable(target),
    {
        self.read_u8(target).is_ok()
    }

    /// The two bytes at `addr`, little-endian, if both are visible.
    pub open spec fn u16_at(self, addr: u64) -> Option<u16> {
        if addr + 1 <= u64::MAX && self.byte_at(addr) is Some && self.byte_at(
            (addr + 1) as u64,
        ) is Some {
            Some(
                (self.byte_at(addr)->Some_0 + self.byte_at((addr + 1) as u64)->Some_0 * 0x100)
                    as u16,
            )
        } else {
            None
        }
    }

    /// The four bytes at `addr`, little-endian, if all are visible.
    pub open spec fn u32_at(self, addr: u64) -> Option<u32> {
        if addr + 3 <= u64::MAX && self.u16_at(addr) is Some && self.u16_at(
            (addr + 2) as u64,
        ) is Some {
            Some(
                (self.u16_at(addr)->Some_0 + self.u16_at((addr + 2) as u64)->Some_0 * 0x1_0000)
                    as u32,
            )
        } else {
            None
        }
    }

    /// The eight bytes at `addr`, little-endian, if all are visible.
    pub open spec fn u64_at(self, addr: u64) -> Option<u64> {
        if addr + 7 <= u64::MAX && self.u32_at(addr) is Some && self.u32_at(
            (addr + 4) as u64,
        ) is Some {
            Some(
                (self.u32_at(addr)->Some_0 + self.u32_at((addr + 4) as u64)->Some_0
                    * 0x1_0000_0000) as u64,
            )
        } else {
            None
        }
    }

    /// Load two bytes at `addr` as a little-endian `u16`.
    pub fn read_u16(&self, addr: u64) -> (r: Result<u16, DwarfError>)
        ensures
            match r {
                Ok(v) => self.u16_at(addr) == Some(v),
                Err(e) => self.u16_at(addr) is None && e == DwarfError::UnreadableAddress(
                    addr,
                ),
            },
    {
        if addr > u64::MAX - 1 {
            return Err(DwarfError::UnreadableAddress(addr));
        }
        let b0 = match self.read_u8(addr) {
            Ok(b) => b,
            Err(_) => return Err(DwarfError::UnreadableAddress(addr)),
        };
        let b1 = match self.read_u8(addr + 1) {
            Ok(b) => b,
            Err(_) => return Err(DwarfError::UnreadableAddress(addr)),
        };
        Ok(b0 as u16 + b1 as u16 * 0x100)
    }

    /// Load four bytes at `addr` as a little-endian `u32`.
    pub fn read_u32(&self, addr: u64) -> (r: Result<u32, DwarfError>)
        ensures
            match r {
                Ok(v) => self.u32_at(addr) == Some(v),
                Err(e) => self.u32_at(addr) is None && e == DwarfError::UnreadableAddress(
                    addr,
                ),
            },
    {
        if addr > u64::MAX - 3 {
            return Err(DwarfError::UnreadableAddress(addr));
        }
        let lo = match self.read_u16(addr) {
            Ok(v) => v,
            Err(_) => return Err(DwarfError::UnreadableAddress(addr)),
        };
        let hi = match self.read_u16(addr + 2) {
            Ok(v) => v,
            Err(_) => return Err(DwarfError::UnreadableAddress(addr)),
        };
        Ok(lo as u32 + hi as u32 * 0x1_0000)
    }

    /// Load eight bytes at `addr` as a little-endian `u64`.
    pub fn read_u64(&self, addr: u64) -> (r: Result<u64, DwarfError>)
        ensures
            match r {
                Ok(v) => self.u64_at(addr) == Some(v),
                Err(e) => self.u64_at(addr) is None && e == DwarfError::UnreadableAddress(
                    addr,
                ),
            },
    {
        if addr > u64::MAX - 7 {
            return Err(DwarfError::UnreadableAddress(addr));
        }
        let lo = match self.read_u32(addr) {
            Ok(v) => v,
            Err(_) => return Err(DwarfError::UnreadableAddress(addr)),
        };
        let hi = match self.read_u32(addr + 4) {
            Ok(v) => v,
            Err(_) => return Err(DwarfError::UnreadableAddress(addr)),
        };
        Ok(lo as u64 + hi as u64 * 0x1_0000_0000)
    }
}

/// The value of an ASCII hexadecimal digit.
pub open spec fn spec_hex_digit(c: u8) -> Option<u64> {
    if 0x30 <= c <= 0x39 {
        Some((c - 0x30) as u64)
    } else if 0x61 <= c <= 0x66 {
        Some((c - 0x61 + 10) as u64)
    } else if 0x41 <= c <= 0x46 {
        Some((c - 0x41 + 10) as u64)
    } else {
        None
    }
}

/// Parse the hexadecimal number in `s` running from `i` up to the byte
/// `stop`: its value and the position after the stop byte. At least one
/// digit is required, every byte before the stop must be a digit, and a
/// value past 64 bits is rejected.
pub open spec fn spec_hex_until(s: Seq<u8>, i: int, stop: u8, acc: u64, ndigits: int) -> Option<
    (u64, int),
>
    decreases s.len() - i,
{
    if i < 0 || i >= s.len() {
        None
    } else if s[i] == stop {
        if ndigits > 0 {
            Some((acc, i + 1))
        } else {
            None
        }
    } else {
        match spec_hex_digit(s[i]) {
            Option::None => None,
            Option::Some(d) => {
                if acc >> 60u64 != 0 {
                    None
                } else {
                    spec_hex_until(s, i + 1, stop, (acc << 4u64) | d, ndigits + 1)
                }
            },
        }
    }
}

/// Whether the permission field of `s` starting at `i` (everything up to
/// the next space) holds the read bit.
pub open spec fn spec_perms_readable(s: Seq<u8>, i: int, seen: bool) -> Option<bool>
    decreases s.len() - i,
{
    if i < 0 || i >= s.len() {
        None
    } else if s[i] == 0x20 {
        Some(seen)
    } else {
        spec_perms_readable(s, i + 1, seen || s[i] == 0x72)
    }
}

/// What parsing one line of a memory-map listing yields: the line's
/// address range and whether the range is readable. The expected shape is
/// `start-end perms ...` with hexadecimal bounds; anything else is
/// rejected.
pub open spec fn spec_parse_maps_entry(line: Seq<u8>) -> Option<(AddressRange, bool)> {
    match spec_hex_until(line, 0, 0x2d, 0, 0) {
        Option::None => None,
        Option::Some((start, i)) => {
            match spec_hex_until(line, i, 0x20, 0, 0) {
                Option::None => None,
                Option::Some((end, j)) => {
                    match spec_perms_readable(line, j, false) {
                        Option::None => None,
                        Option::Some(readable) => Some(((AddressRange { start, end }), readable)),
                    }
                },
            }
        },
    }
}

/// Parse the hexadecimal number in `line` from `*i` up to the byte `stop`,
/// leaving `*i` one past the stop byte.
fn hex_until(line: &[u8], i: &mut usize, stop: u8) -> (r: Option<u64>)
    requires
        *old(i) <= line@.len(),
    ensures
        match r {
            Some(v) => spec_hex_until(line@, *old(i) as int, stop, 0, 0) == Some(
                (v, *final(i) as int),
            ) && *final(i) <= line@.len(),
            None => spec_hex_until(line@, *old(i) as int, stop, 0, 0) is None,
        },
{
    let mut acc: u64 = 0;
    let mut ndigits: usize = 0;
    loop
        invariant
            *i <= line@.len(),
            ndigits <= *i,
            spec_hex_until(line@, *old(i) as int, stop, 0, 0) == spec_hex_until(
                line@,
                *i as int,
                stop,
                acc,
                ndigits as int,
            ),
        decreases line@.len() - *i,
    {
        if *i >= line.len() {
            return None;
        }
        let c = line[*i];
        if c == stop {
            *i = *i + 1;
            if ndigits > 0 {
                return Some(acc);
            } else {
                return None;
            }
        }
        let d: u64 = if 0x30 <= c && c <= 0x39 {
            (c - 0x30) as u64
        } else if 0x61 <= c && c <= 0x66 {
            (c - 0x61 + 10) as u64
        } else if 0x41 <= c && c <= 0x46 {
            (c - 0x41 + 10) as u64
        } else {
            return None;
        };
        if acc >> 60u64 != 0 {
            return None;
        }
        acc = (acc << 4u64) | d;
        *i = *i + 1;
        ndigits = ndigits + 1;
    }
}

/// Parse one line of a memory-map listing (`start-end perms ...`) into its
/// address range and whether the range is readable.
pub fn parse_maps_entry(line: &[u8]) -> (r: Option<(AddressRange, bool)>)
    ensures
        r == spec_parse_maps_entry(line@),
{
    let mut i: usize = 0;
    let start = match hex_until(line, &mut i, 0x2d) {
        Some(v) => v,
        None => {
            return None;
        },
    };
    let end = match hex_until(line, &mut i, 0x20) {
        Some(v) => v,
        None => {
            return None;
        },
    };
    let mut readable = false;
    loop
        invariant
            i <= line@.len(),
            spec_parse_maps_entry(line@) == (match spec_perms_readable(
                line@,
                i as int,
                readable,
            ) {
                Option::None => None::<(AddressRange, bool)>,
                Option::Some(rd) => Some(((AddressRange { start, end }), rd)),
            }),
        decreases line@.len() - i,
    {
        if i >= line.len() {
            return None;
        }
        let c = line[i];
        if c == 0x20 {
            return Some((AddressRange { start, end }, readable));
        }
        if c == 0x72 {
            readable = true;
        }
        i = i + 1;
    }
}

} // verus!

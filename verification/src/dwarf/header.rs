//! The `.eh_frame_hdr` section: its fixed header and the sorted
//! binary-search table mapping function addresses to FDEs.

use vstd::prelude::*;

use crate::dwarf::cfi::{spec_fde, CommonInformationEntry, FrameDescriptionEntry};
use crate::dwarf::consts::{
    DW_EH_PE_OMIT, DW_EH_PE_SDATA2, DW_EH_PE_SDATA4, DW_EH_PE_SDATA8, DW_EH_PE_UDATA2,
    DW_EH_PE_UDATA4, DW_EH_PE_UDATA8,
};
use crate::dwarf::encoding::{decode_pointer, spec_pointer};
use crate::dwarf::DwarfError;
use crate::mem::Memory;

verus! {

/// The information encoded in the `.eh_frame_hdr` section: where `.eh_frame`
/// lies, and the binary-search table over function start addresses.
#[derive(Debug, Copy, Clone, PartialEq, Eq, Structural)]
pub struct EhFrameHeader {
    pub start: u64,
    pub end: u64,
    pub eh_frame: u64,
    pub fde_count: usize,
    pub table: u64,
    pub table_enc: u8,
}

/// The header record at `start`, as [`EhFrameHeader::decode`] parses it.
#[verifier::opaque]
pub open spec fn spec_header(m: Memory, start: u64, end: u64) -> Result<
    EhFrameHeader,
    DwarfError,
> {
    match m.byte_at(start) {
        Option::None => Err(DwarfError::UnreadableAddress(start)),
        Option::Some(version) => {
            if version != 1 {
                Err(DwarfError::InvalidHeaderVersion(version))
            } else {
                match (
                    m.byte_at(start.wrapping_add(1)),
                    m.byte_at(start.wrapping_add(2)),
                    m.byte_at(start.wrapping_add(3)),
                ) {
                    (
                        Option::Some(eh_frame_ptr_enc),
                        Option::Some(fde_count_enc),
                        Option::Some(table_enc),
                    ) => {
                        let loc = start.wrapping_add(4);
                        match spec_pointer(m, loc, end, eh_frame_ptr_enc, start) {
                            Err(e) => Err(e),
                            Ok((eh_frame, loc2)) => {
                                if fde_count_enc != DW_EH_PE_OMIT {
                                    match spec_pointer(m, loc2, end, fde_count_enc, start) {
                                        Err(e) => Err(e),
                                        Ok((fde_count, loc3)) => Ok(
                                            (EhFrameHeader {
                                                start,
                                                end,
                                                eh_frame,
                                                fde_count: fde_count as usize,
                                                table: loc3,
                                                table_enc,
                                            }),
                                        ),
                                    }
                                } else {
                                    Ok(
                                        (EhFrameHeader {
                                            start,
                                            end,
                                            eh_frame,
                                            fde_count: 0,
                                            table: loc2,
                                            table_enc,
                                        }),
                                    )
                                }
                            },
                        }
                    },
                    _ => Err(DwarfError::UnreadableAddress(start)),
                }
            }
        },
    }
}

/// The width in bytes of one binary-search table entry (an encoded
/// `initial_location` / `fde_address` pair), from the low nibble of the
/// table encoding.
pub open spec fn spec_table_entry_size(table_enc: u8) -> Result<u64, DwarfError> {
    let w = (table_enc & 0x0f) as u8;
    if w == DW_EH_PE_UDATA2 || w == DW_EH_PE_SDATA2 {
        Ok(4)
    } else if w == DW_EH_PE_UDATA4 || w == DW_EH_PE_SDATA4 {
        Ok(8)
    } else if w == DW_EH_PE_UDATA8 || w == DW_EH_PE_SDATA8 {
        Ok(16)
    } else {
        Err(DwarfError::InvalidPointerEncodingSize(w))
    }
}

/// The lower-bound binary search over the header's table: the index of the
/// last entry whose `initial_location` is at most `target`, starting from
/// the window `[low, low + len)`.
pub open spec fn spec_header_search_loop(
    m: Memory,
    hdr: EhFrameHeader,
    entry_size: u64,
    low: usize,
    len: usize,
    target: u64,
) -> Result<usize, DwarfError>
    decreases len,
{
    if len <= 1 {
        Ok(low)
    } else {
        let mid = low.wrapping_add((len / 2) as usize);
        let entry_loc = hdr.table.wrapping_add((mid as u64).wrapping_mul(entry_size));
        match spec_pointer(m, entry_loc, hdr.end, hdr.table_enc, hdr.start) {
            Err(e) => Err(e),
            Ok((entry_target, _)) => {
                if entry_target == target {
                    Ok(mid)
                } else if entry_target < target {
                    spec_header_search_loop(
                        m,
                        hdr,
                        entry_size,
                        mid,
                        (len - len / 2) as usize,
                        target,
                    )
                } else {
                    spec_header_search_loop(m, hdr, entry_size, low, (len / 2) as usize, target)
                }
            },
        }
    }
}

/// What the header search yields for `target`: the FDE the table names for
/// it, checked to contain `target`, or the error.
#[verifier::opaque]
pub open spec fn spec_header_search(m: Memory, hdr: EhFrameHeader, target: u64) -> Result<
    (FrameDescriptionEntry, CommonInformationEntry),
    DwarfError,
> {
    match spec_table_entry_size(hdr.table_enc) {
        Err(e) => Err(e),
        Ok(entry_size) => {
            match spec_header_search_loop(m, hdr, entry_size, 0, hdr.fde_count, target) {
                Err(e) => Err(e),
                Ok(low) => {
                    let entry_loc = hdr.table.wrapping_add((low as u64).wrapping_mul(entry_size));
                    match spec_pointer(m, entry_loc, hdr.end, hdr.table_enc, hdr.start) {
                        Err(e) => Err(e),
                        Ok((_, loc2)) => {
                            match spec_pointer(m, loc2, hdr.end, hdr.table_enc, hdr.start) {
                                Err(e) => Err(e),
                                Ok((fde_addr, _)) => {
                                    match spec_fde(m, fde_addr) {
                                        Err(e) => Err(e),
                                        Ok((fde, cie)) => {
                                            if target < fde.pc_start || target >= fde.pc_end {
                                                Err(DwarfError::FDENotFound)
                                            } else {
                                                Ok((fde, cie))
                                            }
                                        },
                                    }
                                },
                            }
                        },
                    }
                },
            }
        },
    }
}

impl EhFrameHeader {
    /// Parse the `.eh_frame_hdr` section lying at `[start, end)`.
    pub fn decode(m: &Memory, start: u64, end: u64) -> (r: Result<EhFrameHeader, DwarfError>)
        ensures
            r == spec_header(*m, start, end),
    {
        proof {
            reveal(spec_header);
        }
        let version = match m.read_u8(start) {
            Ok(v) => v,
            Err(e) => return Err(e),
        };
        if version != 1 {
            return Err(DwarfError::InvalidHeaderVersion(version));
        }
        let eh_frame_ptr_enc = match m.read_u8(start.wrapping_add(1)) {
            Ok(v) => v,
            Err(_) => return Err(DwarfError::UnreadableAddress(start)),
        };
        let fde_count_enc = match m.read_u8(start.wrapping_add(2)) {
            Ok(v) => v,
            Err(_) => return Err(DwarfError::UnreadableAddress(start)),
        };
        let table_enc = match m.read_u8(start.wrapping_add(3)) {
            Ok(v) => v,
            Err(_) => return Err(DwarfError::UnreadableAddress(start)),
        };
        let mut loc = start.wrapping_add(4);
        let eh_frame = match decode_pointer(m, &mut loc, end, eh_frame_ptr_enc, start) {
            Ok(v) => v,
            Err(e) => return Err(e),
        };
        let fde_count: u64 = if fde_count_enc != DW_EH_PE_OMIT {
            match decode_pointer(m, &mut loc, end, fde_count_enc, start) {
                Ok(v) => v,
                Err(e) => return Err(e),
            }
        } else {
            0
        };
        Ok(
            EhFrameHeader {
                start,
                end,
                eh_frame,
                fde_count: fde_count as usize,
                table: loc,
                table_enc,
            },
        )
    }

    /// Search the header's sorted table for the FDE covering `target`.
    /// Success means the returned FDE does contain `target`; a table entry
    /// naming an FDE that does not yields [`DwarfError::FDENotFound`], which
    /// the caller recovers from by scanning `.eh_frame` in full.
    #[verifier::rlimit(100)]
    pub fn search(&self, m: &Memory, target: u64) -> (r: Result<
        (FrameDescriptionEntry, CommonInformationEntry),
        DwarfError,
    >)
        ensures
            r == spec_header_search(*m, *self, target),
            r matches Ok(fc) ==> fc.0.spec_contains(target),
    {
        proof {
            reveal(spec_header_search);
        }
        let w = self.table_enc & 0x0f;
        let entry_size: u64 = if w == DW_EH_PE_UDATA2 || w == DW_EH_PE_SDATA2 {
            4
        } else if w == DW_EH_PE_UDATA4 || w == DW_EH_PE_SDATA4 {
            8
        } else if w == DW_EH_PE_UDATA8 || w == DW_EH_PE_SDATA8 {
            16
        } else {
            return Err(DwarfError::InvalidPointerEncodingSize(w));
        };

        // A lower-bound binary search for the last table entry whose
        // initial location is at most the target.
        let mut low: usize = 0;
        let mut len: usize = self.fde_count;
        while len > 1
            invariant_except_break
                spec_header_search_loop(*m, *self, entry_size, low, len, target)
                    == spec_header_search_loop(*m, *self, entry_size, 0, self.fde_count, target),
            invariant
                spec_table_entry_size(self.table_enc) == Ok::<u64, DwarfError>(entry_size),
            ensures
                spec_header_search_loop(*m, *self, entry_size, 0, self.fde_count, target) == Ok::<
                    usize,
                    DwarfError,
                >(low),
                spec_table_entry_size(self.table_enc) == Ok::<u64, DwarfError>(entry_size),
            decreases len,
        {
            proof {
                reveal(spec_header_search);
            }
            let mid: usize = low.wrapping_add(len / 2);
            let mut entry_loc = self.table.wrapping_add((mid as u64).wrapping_mul(entry_size));
            let entry_target = match decode_pointer(
                m,
                &mut entry_loc,
                self.end,
                self.table_enc,
                self.start,
            ) {
                Ok(v) => v,
                Err(e) => return Err(e),
            };
            if entry_target == target {
                low = mid;
                break;
            } else if entry_target < target {
                low = mid;
                len = len - len / 2;
            } else {
                len = len / 2;
            }
        }

        // Decode the chosen entry: skip its initial location, decode the
        // FDE address it pairs with, and parse the FDE there.
        let mut entry_loc = self.table.wrapping_add((low as u64).wrapping_mul(entry_size));
        match decode_pointer(m, &mut entry_loc, self.end, self.table_enc, self.start) {
            Ok(_) => (),
            Err(e) => return Err(e),
        }
        let fde_addr = match decode_pointer(m, &mut entry_loc, self.end, self.table_enc, self.start)
            {
            Ok(v) => v,
            Err(e) => return Err(e),
        };
        match FrameDescriptionEntry::decode(m, fde_addr) {
            Ok((fde, cie)) => {
                if target < fde.pc_start || target >= fde.pc_end {
                    Err(DwarfError::FDENotFound)
                } else {
                    Ok((fde, cie))
                }
            },
            Err(e) => Err(e),
        }
    }
}

} // verus!

//! Apple compact unwinding: the two-level `__unwind_info` index that maps a
//! function offset to its 32-bit unwind encoding.
//!
//! The section layout follows LLVM libunwind's definitions: a level-one
//! header whose index entries partition the binary's function-offset space,
//! and level-two pages in a regular (offset, encoding) or compressed
//! (packed entry plus encoding table) form.

use vstd::prelude::*;

use crate::mem::Memory;

pub mod aarch64;
pub mod x64;

verus! {

/// The compact unwind encoding: a 32-bit value encoding, per architecture,
/// which registers to restore from where and how to leave the function.
pub type Encoding = u32;

pub const UNWIND_SECTION_VERSION: u32 = 1;
pub const UNWIND_SECOND_LEVEL_REGULAR: u32 = 2;
pub const UNWIND_SECOND_LEVEL_COMPRESSED: u32 = 3;

/// One function's compact unwind record: its address range and encoding.
/// An encoding of zero means the function has no unwind info.
#[derive(Debug, Copy, Clone, PartialEq, Eq, Structural)]
pub struct UnwindFuncInfo {
    pub start: u64,
    pub end: u64,
    pub encoding: Encoding,
}

/// The function offset packed in a compressed second-level entry (its low
/// 24 bits).
pub fn unwind_info_compressed_entry_func_offset(entry: u32) -> (r: u32)
    ensures
        r == entry & 0x00FFFFFF,
{
    entry & 0x00FFFFFF
}

/// The encoding index packed in a compressed second-level entry (its high
/// 8 bits).
pub fn unwind_info_compressed_entry_encoding_index(entry: u32) -> (r: u16)
    ensures
        r == ((entry >> 24u32) as u16) & 0xFF,
{
    ((entry >> 24u32) as u16) & 0xFF
}

/// The level-one binary search: the index of the last level-one entry whose
/// function offset is at most `target`, searching `[low, high)`. Entries
/// are 12 bytes, laid out at `idx_base`.
pub open spec fn spec_l1_search(
    m: Memory,
    idx_base: u64,
    last: usize,
    target: u32,
    low: usize,
    high: usize,
) -> Option<usize>
    decreases high - low,
{
    if low >= high {
        Some(low)
    } else {
        let mid = (low + (high - low) / 2) as usize;
        match m.u32_at(idx_base.wrapping_add((mid as u64).wrapping_mul(12))) {
            Option::None => None,
            Option::Some(fo) => {
                if fo <= target {
                    if mid == last {
                        Some(mid)
                    } else {
                        match m.u32_at(
                            idx_base.wrapping_add((mid as u64).wrapping_mul(12).wrapping_add(12)),
                        ) {
                            Option::None => None,
                            Option::Some(fo2) => {
                                if fo2 > target {
                                    Some(mid)
                                } else {
                                    spec_l1_search(
                                        m,
                                        idx_base,
                                        last,
                                        target,
                                        (mid + 1) as usize,
                                        high,
                                    )
                                }
                            },
                        }
                    }
                } else {
                    spec_l1_search(m, idx_base, last, target, low, mid)
                }
            },
        }
    }
}

/// The level-two binary search of a regular page: the chosen entry index
/// and the function-end address the search determined (0 when the loop
/// never settled on one). Entries are 8 bytes, laid out at `ent_base`.
pub open spec fn spec_l2_regular_search(
    m: Memory,
    ent_base: u64,
    count: usize,
    base_address: u64,
    l1_next_fo: u32,
    target: u32,
    low: usize,
    high: usize,
    func_end: u64,
) -> Option<(usize, u64)>
    decreases high - low,
{
    if low >= high {
        Some((low, func_end))
    } else {
        let mid = (low + (high - low) / 2) as usize;
        match m.u32_at(ent_base.wrapping_add((mid as u64).wrapping_mul(8))) {
            Option::None => None,
            Option::Some(fo) => {
                if fo <= target {
                    if mid + 1 == count {
                        // At the end of the table: the level-one successor
                        // bounds the function.
                        Some((mid, base_address.wrapping_add(l1_next_fo as u64)))
                    } else {
                        match m.u32_at(
                            ent_base.wrapping_add((mid as u64).wrapping_mul(8).wrapping_add(8)),
                        ) {
                            Option::None => None,
                            Option::Some(fo2) => {
                                if fo2 > target {
                                    Some((mid, base_address.wrapping_add(fo2 as u64)))
                                } else {
                                    spec_l2_regular_search(
                                        m,
                                        ent_base,
                                        count,
                                        base_address,
                                        l1_next_fo,
                                        target,
                                        (mid + 1) as usize,
                                        high,
                                        func_end,
                                    )
                                }
                            },
                        }
                    }
                } else {
                    spec_l2_regular_search(
                        m,
                        ent_base,
                        count,
                        base_address,
                        l1_next_fo,
                        target,
                        low,
                        mid,
                        func_end,
                    )
                }
            },
        }
    }
}

/// The level-two binary search of a compressed page: the index of the last
/// entry whose packed function offset is at most `target`. Entries are 4
/// bytes, laid out at `ent_base`.
pub open spec fn spec_l2_compressed_search(
    m: Memory,
    ent_base: u64,
    last: usize,
    target: u32,
    low: usize,
    high: usize,
) -> Option<usize>
    decreases high - low,
{
    if low >= high {
        Some(low)
    } else {
        let mid = (low + (high - low) / 2) as usize;
        match m.u32_at(ent_base.wrapping_add((mid as u64).wrapping_mul(4))) {
            Option::None => None,
            Option::Some(e) => {
                if e & 0x00FFFFFF <= target {
                    if mid == last {
                        Some(mid)
                    } else {
                        match m.u32_at(
                            ent_base.wrapping_add((mid as u64).wrapping_mul(4).wrapping_add(4)),
                        ) {
                            Option::None => None,
                            Option::Some(e2) => {
                                if e2 & 0x00FFFFFF > target {
                                    Some(mid)
                                } else {
                                    spec_l2_compressed_search(
                                        m,
                                        ent_base,
                                        last,
                                        target,
                                        (mid + 1) as usize,
                                        high,
                                    )
                                }
                            },
                        }
                    }
                } else {
                    spec_l2_compressed_search(m, ent_base, last, target, low, mid)
                }
            },
        }
    }
}

/// What looking `pc` up in the `__unwind_info` section at
/// `section_address` yields: the covering function's range and encoding,
/// or `None` when the section is malformed, unreadable, or does not cover
/// `pc`.
#[verifier::opaque]
pub open spec fn spec_find(m: Memory, pc: u64, section_address: u64, base_address: u64) -> Option<
    UnwindFuncInfo,
> {
    match (
        m.u32_at(section_address),
        m.u32_at(section_address.wrapping_add(4)),
        m.u32_at(section_address.wrapping_add(8)),
        m.u32_at(section_address.wrapping_add(20)),
        m.u32_at(section_address.wrapping_add(24)),
    ) {
        (
            Option::Some(version),
            Option::Some(common_off),
            Option::Some(common_count),
            Option::Some(index_off),
            Option::Some(index_count),
        ) => {
            if version != UNWIND_SECTION_VERSION || index_count == 0 {
                None
            } else {
                let target_fo = pc.wrapping_sub(base_address) as u32;
                let idx_base = section_address.wrapping_add(index_off as u64);
                let last = (index_count - 1) as usize;
                match spec_l1_search(m, idx_base, last, target_fo, 0, index_count as usize) {
                    Option::None => None,
                    Option::Some(low) => {
                        if low == last {
                            None
                        } else {
                            spec_find_l2(
                                m,
                                pc,
                                section_address,
                                base_address,
                                common_off,
                                common_count,
                                idx_base,
                                target_fo,
                                low,
                            )
                        }
                    },
                }
            }
        },
        _ => None,
    }
}

/// The level-two half of [`spec_find`], entered once the level-one entry
/// `low` is chosen.
pub open spec fn spec_find_l2(
    m: Memory,
    pc: u64,
    section_address: u64,
    base_address: u64,
    common_off: u32,
    common_count: u32,
    idx_base: u64,
    target_fo: u32,
    low: usize,
) -> Option<UnwindFuncInfo> {
    match (
        m.u32_at(idx_base.wrapping_add((low as u64).wrapping_mul(12))),
        m.u32_at(idx_base.wrapping_add((low as u64).wrapping_mul(12)).wrapping_add(4)),
        m.u32_at(idx_base.wrapping_add((low as u64).wrapping_mul(12)).wrapping_add(12)),
    ) {
        (Option::Some(l1_fo), Option::Some(second_off), Option::Some(l1_next_fo)) => {
            let l2_addr = section_address.wrapping_add(second_off as u64);
            match m.u32_at(l2_addr) {
                Option::None => None,
                Option::Some(kind) => {
                    if kind == UNWIND_SECOND_LEVEL_REGULAR {
                        spec_find_regular(m, pc, base_address, l1_next_fo, target_fo, l2_addr)
                    } else if kind == UNWIND_SECOND_LEVEL_COMPRESSED {
                        spec_find_compressed(
                            m,
                            pc,
                            section_address,
                            base_address,
                            common_off,
                            common_count,
                            l1_fo,
                            l1_next_fo,
                            target_fo,
                            l2_addr,
                        )
                    } else {
                        None
                    }
                },
            }
        },
        _ => None,
    }
}

/// The tail of a regular-page lookup, once the search has chosen entry
/// `low` and the function-end address.
pub open spec fn spec_find_regular_tail(
    m: Memory,
    pc: u64,
    base_address: u64,
    ent_base: u64,
    low: usize,
    func_end: u64,
) -> Option<UnwindFuncInfo> {
    match (
        m.u32_at(ent_base.wrapping_add((low as u64).wrapping_mul(8))),
        m.u32_at(ent_base.wrapping_add((low as u64).wrapping_mul(8)).wrapping_add(4)),
    ) {
        (Option::Some(fo), Option::Some(encoding)) => {
            let func_start = base_address.wrapping_add(fo as u64);
            if pc < func_start || pc > func_end {
                None
            } else {
                Some((UnwindFuncInfo { start: func_start, end: func_end, encoding }))
            }
        },
        _ => None,
    }
}

/// Lookup in a regular second-level page.
pub open spec fn spec_find_regular(
    m: Memory,
    pc: u64,
    base_address: u64,
    l1_next_fo: u32,
    target_fo: u32,
    l2_addr: u64,
) -> Option<UnwindFuncInfo> {
    match (m.u16_at(l2_addr.wrapping_add(4)), m.u16_at(l2_addr.wrapping_add(6))) {
        (Option::Some(entry_page_offset), Option::Some(entry_count)) => {
            let ent_base = l2_addr.wrapping_add(entry_page_offset as u64);
            match spec_l2_regular_search(
                m,
                ent_base,
                entry_count as usize,
                base_address,
                l1_next_fo,
                target_fo,
                0,
                entry_count as usize,
                0,
            ) {
                Option::None => None,
                Option::Some((low, func_end)) => spec_find_regular_tail(
                    m,
                    pc,
                    base_address,
                    ent_base,
                    low,
                    func_end,
                ),
            }
        },
        _ => None,
    }
}

/// The tail of a compressed-page lookup, once the search has chosen entry
/// `low`.
pub open spec fn spec_find_compressed_tail(
    m: Memory,
    pc: u64,
    section_address: u64,
    base_address: u64,
    common_off: u32,
    common_count: u32,
    encodings_page_offset: u16,
    l1_fo: u32,
    l1_next_fo: u32,
    last: usize,
    ent_base: u64,
    l2_addr: u64,
    low: usize,
) -> Option<UnwindFuncInfo> {
    match m.u32_at(ent_base.wrapping_add((low as u64).wrapping_mul(4))) {
        Option::None => None,
        Option::Some(entry) => {
            let func_start = base_address.wrapping_add(l1_fo as u64).wrapping_add(
                (entry & 0x00FFFFFF) as u64,
            );
            match (if low < last {
                m.u32_at(ent_base.wrapping_add((low as u64).wrapping_mul(4)).wrapping_add(4))
            } else {
                Some(0u32)
            }) {
                Option::None => None,
                Option::Some(next_entry) => {
                    let func_end = if low < last {
                        base_address.wrapping_add(l1_fo as u64).wrapping_add(
                            (next_entry & 0x00FFFFFF) as u64,
                        )
                    } else {
                        base_address.wrapping_add(l1_next_fo as u64)
                    };
                    if pc < func_start || pc > func_end {
                        None
                    } else {
                        let enc_idx = ((entry >> 24u32) as u16) & 0xFF;
                        let enc_addr = if (enc_idx as u32) < common_count {
                            section_address.wrapping_add(common_off as u64).wrapping_add(
                                (enc_idx as u64).wrapping_mul(4),
                            )
                        } else {
                            l2_addr.wrapping_add(encodings_page_offset as u64).wrapping_add(
                                ((enc_idx as u32).wrapping_sub(common_count) as u64).wrapping_mul(
                                    4,
                                ),
                            )
                        };
                        match m.u32_at(enc_addr) {
                            Option::None => None,
                            Option::Some(encoding) => Some(
                                (UnwindFuncInfo { start: func_start, end: func_end, encoding }),
                            ),
                        }
                    }
                },
            }
        },
    }
}

/// Lookup in a compressed second-level page.
pub open spec fn spec_find_compressed(
    m: Memory,
    pc: u64,
    section_address: u64,
    base_address: u64,
    common_off: u32,
    common_count: u32,
    l1_fo: u32,
    l1_next_fo: u32,
    target_fo: u32,
    l2_addr: u64,
) -> Option<UnwindFuncInfo> {
    match (
        m.u16_at(l2_addr.wrapping_add(4)),
        m.u16_at(l2_addr.wrapping_add(6)),
        m.u16_at(l2_addr.wrapping_add(8)),
        m.u16_at(l2_addr.wrapping_add(10)),
    ) {
        (
            Option::Some(entry_page_offset),
            Option::Some(entry_count),
            Option::Some(encodings_page_offset),
            Option::Some(encodings_count),
        ) => {
            if entry_count == 0 {
                None
            } else {
                let ent_base = l2_addr.wrapping_add(entry_page_offset as u64);
                let target_page_fo = target_fo.wrapping_sub(l1_fo);
                let last = (entry_count - 1) as usize;
                let _ = encodings_count;
                match spec_l2_compressed_search(
                    m,
                    ent_base,
                    last,
                    target_page_fo,
                    0,
                    entry_count as usize,
                ) {
                    Option::None => None,
                    Option::Some(low) => spec_find_compressed_tail(
                        m,
                        pc,
                        section_address,
                        base_address,
                        common_off,
                        common_count,
                        encodings_page_offset,
                        l1_fo,
                        l1_next_fo,
                        last,
                        ent_base,
                        l2_addr,
                        low,
                    ),
                }
            }
        },
        _ => None,
    }
}

impl UnwindFuncInfo {
    /// Look `pc` up in the two-level `__unwind_info` index at
    /// `section_address`. `base_address` is the image's load address, which
    /// function offsets are relative to. `None` means the section is
    /// malformed, unreadable, or does not cover `pc`.
    #[verifier::rlimit(100)]
    pub fn find(m: &Memory, pc: u64, section_address: u64, base_address: u64) -> (r: Option<
        UnwindFuncInfo,
    >)
        ensures
            r == spec_find(*m, pc, section_address, base_address),
    {
        proof {
            reveal(spec_find);
        }
        // Level-one header fields.
        let version = match m.read_u32(section_address) {
            Ok(v) => v,
            Err(_) => return None,
        };
        let common_off = match m.read_u32(section_address.wrapping_add(4)) {
            Ok(v) => v,
            Err(_) => return None,
        };
        let common_count = match m.read_u32(section_address.wrapping_add(8)) {
            Ok(v) => v,
            Err(_) => return None,
        };
        let index_off = match m.read_u32(section_address.wrapping_add(20)) {
            Ok(v) => v,
            Err(_) => return None,
        };
        let index_count = match m.read_u32(section_address.wrapping_add(24)) {
            Ok(v) => v,
            Err(_) => return None,
        };
        if version != UNWIND_SECTION_VERSION || index_count == 0 {
            return None;
        }

        // Binary-search the level-one index for the page covering the
        // target function offset.
        let target_fo = pc.wrapping_sub(base_address) as u32;
        let idx_base = section_address.wrapping_add(index_off as u64);
        let last = (index_count - 1) as usize;
        let mut low: usize = 0;
        let mut high: usize = index_count as usize;
        let mut found: usize = 0;
        loop
            invariant
                low <= high,
                spec_l1_search(*m, idx_base, last, target_fo, low, high) == spec_l1_search(
                    *m,
                    idx_base,
                    last,
                    target_fo,
                    0,
                    index_count as usize,
                ),
                spec_find(*m, pc, section_address, base_address) == (match spec_l1_search(
                    *m,
                    idx_base,
                    last,
                    target_fo,
                    0,
                    index_count as usize,
                ) {
                    Option::None => None::<UnwindFuncInfo>,
                    Option::Some(low0) => {
                        if low0 == last {
                            None::<UnwindFuncInfo>
                        } else {
                            spec_find_l2(
                                *m,
                                pc,
                                section_address,
                                base_address,
                                common_off,
                                common_count,
                                idx_base,
                                target_fo,
                                low0,
                            )
                        }
                    },
                }),
            ensures
                spec_l1_search(*m, idx_base, last, target_fo, 0, index_count as usize)
                    == Some::<usize>(found),
            decreases high - low,
        {
            if low >= high {
                found = low;
                break;
            }
            let mid = low + (high - low) / 2;
            let fo = match m.read_u32(idx_base.wrapping_add((mid as u64).wrapping_mul(12))) {
                Ok(v) => v,
                Err(_) => return None,
            };
            if fo <= target_fo {
                if mid == last {
                    found = mid;
                    break;
                }
                let fo2 = match m.read_u32(
                    idx_base.wrapping_add((mid as u64).wrapping_mul(12).wrapping_add(12)),
                ) {
                    Ok(v) => v,
                    Err(_) => return None,
                };
                if fo2 > target_fo {
                    found = mid;
                    break;
                }
                low = mid + 1;
            } else {
                high = mid;
            }
        }
        let low = found;
        if low == last {
            // The final index entry only bounds its predecessor.
            return None;
        }

        // Read the chosen level-one entry and the level-two page kind.
        let l1_fo = match m.read_u32(idx_base.wrapping_add((low as u64).wrapping_mul(12))) {
            Ok(v) => v,
            Err(_) => return None,
        };
        let second_off = match m.read_u32(
            idx_base.wrapping_add((low as u64).wrapping_mul(12)).wrapping_add(4),
        ) {
            Ok(v) => v,
            Err(_) => return None,
        };
        let l1_next_fo = match m.read_u32(
            idx_base.wrapping_add((low as u64).wrapping_mul(12)).wrapping_add(12),
        ) {
            Ok(v) => v,
            Err(_) => return None,
        };
        let l2_addr = section_address.wrapping_add(second_off as u64);
        let kind = match m.read_u32(l2_addr) {
            Ok(v) => v,
            Err(_) => return None,
        };
        if kind == UNWIND_SECOND_LEVEL_REGULAR {
            find_regular(m, pc, base_address, l1_next_fo, target_fo, l2_addr)
        } else if kind == UNWIND_SECOND_LEVEL_COMPRESSED {
            find_compressed(
                m,
                pc,
                section_address,
                base_address,
                common_off,
                common_count,
                l1_fo,
                l1_next_fo,
                target_fo,
                l2_addr,
            )
        } else {
            None
        }
    }
}

/// Lookup in a regular second-level page.
#[verifier::rlimit(100)]
fn find_regular(
    m: &Memory,
    pc: u64,
    base_address: u64,
    l1_next_fo: u32,
    target_fo: u32,
    l2_addr: u64,
) -> (r: Option<UnwindFuncInfo>)
    ensures
        r == spec_find_regular(*m, pc, base_address, l1_next_fo, target_fo, l2_addr),
{
    let entry_page_offset = match m.read_u16(l2_addr.wrapping_add(4)) {
        Ok(v) => v,
        Err(_) => return None,
    };
    let entry_count = match m.read_u16(l2_addr.wrapping_add(6)) {
        Ok(v) => v,
        Err(_) => return None,
    };
    let ent_base = l2_addr.wrapping_add(entry_page_offset as u64);

    // Binary search for the entry whose range covers the target.
    let mut low: usize = 0;
    let mut high: usize = entry_count as usize;
    let mut func_end: u64 = 0;
    let mut found: usize = 0;
    loop
        invariant
            low <= high,
            spec_l2_regular_search(
                *m,
                ent_base,
                entry_count as usize,
                base_address,
                l1_next_fo,
                target_fo,
                low,
                high,
                func_end,
            ) == spec_l2_regular_search(
                *m,
                ent_base,
                entry_count as usize,
                base_address,
                l1_next_fo,
                target_fo,
                0,
                entry_count as usize,
                0,
            ),
            spec_find_regular(*m, pc, base_address, l1_next_fo, target_fo, l2_addr) == (
            match spec_l2_regular_search(
                *m,
                ent_base,
                entry_count as usize,
                base_address,
                l1_next_fo,
                target_fo,
                0,
                entry_count as usize,
                0,
            ) {
                Option::None => None::<UnwindFuncInfo>,
                Option::Some((low0, fe0)) => spec_find_regular_tail(
                    *m,
                    pc,
                    base_address,
                    ent_base,
                    low0,
                    fe0,
                ),
            }),
        ensures
            spec_l2_regular_search(
                *m,
                ent_base,
                entry_count as usize,
                base_address,
                l1_next_fo,
                target_fo,
                0,
                entry_count as usize,
                0,
            ) == Some::<(usize, u64)>((found, func_end)),
        decreases high - low,
    {
        if low >= high {
            found = low;
            break;
        }
        let mid = low + (high - low) / 2;
        let fo = match m.read_u32(ent_base.wrapping_add((mid as u64).wrapping_mul(8))) {
            Ok(v) => v,
            Err(_) => return None,
        };
        if fo <= target_fo {
            if mid + 1 == entry_count as usize {
                // At the end of the table.
                func_end = base_address.wrapping_add(l1_next_fo as u64);
                found = mid;
                break;
            }
            let fo2 = match m.read_u32(
                ent_base.wrapping_add((mid as u64).wrapping_mul(8).wrapping_add(8)),
            ) {
                Ok(v) => v,
                Err(_) => return None,
            };
            if fo2 > target_fo {
                // The next entry is too big, so this one covers the target.
                func_end = base_address.wrapping_add(fo2 as u64);
                found = mid;
                break;
            }
            low = mid + 1;
        } else {
            high = mid;
        }
    }
    let low = found;
    let fo = match m.read_u32(ent_base.wrapping_add((low as u64).wrapping_mul(8))) {
        Ok(v) => v,
        Err(_) => return None,
    };
    let encoding = match m.read_u32(
        ent_base.wrapping_add((low as u64).wrapping_mul(8)).wrapping_add(4),
    ) {
        Ok(v) => v,
        Err(_) => return None,
    };
    let func_start = base_address.wrapping_add(fo as u64);
    if pc < func_start || pc > func_end {
        return None;
    }
    Some(UnwindFuncInfo { start: func_start, end: func_end, encoding })
}

/// Lookup in a compressed second-level page.
#[verifier::rlimit(100)]
fn find_compressed(
    m: &Memory,
    pc: u64,
    section_address: u64,
    base_address: u64,
    common_off: u32,
    common_count: u32,
    l1_fo: u32,
    l1_next_fo: u32,
    target_fo: u32,
    l2_addr: u64,
) -> (r: Option<UnwindFuncInfo>)
    ensures
        r == spec_find_compressed(
            *m,
            pc,
            section_address,
            base_address,
            common_off,
            common_count,
            l1_fo,
            l1_next_fo,
            target_fo,
            l2_addr,
        ),
{
    let entry_page_offset = match m.read_u16(l2_addr.wrapping_add(4)) {
        Ok(v) => v,
        Err(_) => return None,
    };
    let entry_count = match m.read_u16(l2_addr.wrapping_add(6)) {
        Ok(v) => v,
        Err(_) => return None,
    };
    let encodings_page_offset = match m.read_u16(l2_addr.wrapping_add(8)) {
        Ok(v) => v,
        Err(_) => return None,
    };
    let encodings_count = match m.read_u16(l2_addr.wrapping_add(10)) {
        Ok(v) => v,
        Err(_) => return None,
    };
    let _ = encodings_count;
    if entry_count == 0 {
        return None;
    }
    let ent_base = l2_addr.wrapping_add(entry_page_offset as u64);
    let target_page_fo = target_fo.wrapping_sub(l1_fo);
    let last = (entry_count - 1) as usize;

    // Binary search over the packed entries' function offsets.
    let mut low: usize = 0;
    let mut high: usize = entry_count as usize;
    let mut found: usize = 0;
    loop
        invariant
            low <= high,
            spec_l2_compressed_search(*m, ent_base, last, target_page_fo, low, high)
                == spec_l2_compressed_search(
                *m,
                ent_base,
                last,
                target_page_fo,
                0,
                entry_count as usize,
            ),
            spec_find_compressed(
                *m,
                pc,
                section_address,
                base_address,
                common_off,
                common_count,
                l1_fo,
                l1_next_fo,
                target_fo,
                l2_addr,
            ) == (match spec_l2_compressed_search(
                *m,
                ent_base,
                last,
                target_page_fo,
                0,
                entry_count as usize,
            ) {
                Option::None => None::<UnwindFuncInfo>,
                Option::Some(low0) => spec_find_compressed_tail(
                    *m,
                    pc,
                    section_address,
                    base_address,
                    common_off,
                    common_count,
                    encodings_page_offset,
                    l1_fo,
                    l1_next_fo,
                    last,
                    ent_base,
                    l2_addr,
                    low0,
                ),
            }),
        ensures
            spec_l2_compressed_search(*m, ent_base, last, target_page_fo, 0, entry_count as usize)
                == Some::<usize>(found),
        decreases high - low,
    {
        if low >= high {
            found = low;
            break;
        }
        let mid = low + (high - low) / 2;
        let e = match m.read_u32(ent_base.wrapping_add((mid as u64).wrapping_mul(4))) {
            Ok(v) => v,
            Err(_) => return None,
        };
        if e & 0x00FFFFFF <= target_page_fo {
            if mid == last {
                found = mid;
                break;
            }
            let e2 = match m.read_u32(
                ent_base.wrapping_add((mid as u64).wrapping_mul(4).wrapping_add(4)),
            ) {
                Ok(v) => v,
                Err(_) => return None,
            };
            if e2 & 0x00FFFFFF > target_page_fo {
                found = mid;
                break;
            }
            low = mid + 1;
        } else {
            high = mid;
        }
    }
    let low = found;
    let entry = match m.read_u32(ent_base.wrapping_add((low as u64).wrapping_mul(4))) {
        Ok(v) => v,
        Err(_) => return None,
    };
    let func_start = base_address.wrapping_add(l1_fo as u64).wrapping_add(
        (entry & 0x00FFFFFF) as u64,
    );
    let func_end: u64;
    if low < last {
        let next_entry = match m.read_u32(
            ent_base.wrapping_add((low as u64).wrapping_mul(4)).wrapping_add(4),
        ) {
            Ok(v) => v,
            Err(_) => return None,
        };
        func_end = base_address.wrapping_add(l1_fo as u64).wrapping_add(
            (next_entry & 0x00FFFFFF) as u64,
        );
    } else {
        func_end = base_address.wrapping_add(l1_next_fo as u64);
    }
    if pc < func_start || pc > func_end {
        return None;
    }

    // The encoding is in the global common table or the page-local one.
    let enc_idx = ((entry >> 24u32) as u16) & 0xFF;
    let enc_addr = if (enc_idx as u32) < common_count {
        section_address.wrapping_add(common_off as u64).wrapping_add(
            (enc_idx as u64).wrapping_mul(4),
        )
    } else {
        l2_addr.wrapping_add(encodings_page_offset as u64).wrapping_add(
            (((enc_idx as u32).wrapping_sub(common_count)) as u64).wrapping_mul(4),
        )
    };
    match m.read_u32(enc_addr) {
        Ok(encoding) => Some(UnwindFuncInfo { start: func_start, end: func_end, encoding }),
        Err(_) => None,
    }
}

} // verus!

//! The fixed-field strategy, for processors of the AMD Zen family.
//!
//! These processors are not asked for an enumeration of their caches. Two
//! extended leaves hold one size and one line size for each of four caches, at
//! fixed places: the first-level instruction and data cache, and the unified
//! second- and third-level cache. Sizes are held in kilobytes and answered in
//! bytes; line sizes are held in bytes.

use crate::provider::Provider;
use crate::report::{CpuReportView, L1CacheInfo, L2L3CacheInfo};
use crate::CacheType;
use vstd::prelude::*;

verus! {

/// Whether the fixed fields have a place for `(level, cache_type)`.
pub open spec fn has_fixed_fields(level: u8, cache_type: CacheType) -> bool {
    ||| level == 1 && cache_type == CacheType::Instruction
    ||| level == 1 && cache_type == CacheType::Data
    ||| level == 2 && cache_type == CacheType::Unified
    ||| level == 3 && cache_type == CacheType::Unified
}

/// Whether the fixed fields answer for `(level, cache_type)`: they have a
/// place for the pair, and the leaf that holds the place is offered.
pub open spec fn fixed_fields_answer(
    l1: Option<L1CacheInfo>,
    l2_l3: Option<L2L3CacheInfo>,
    level: u8,
    cache_type: CacheType,
) -> bool {
    &&& has_fixed_fields(level, cache_type)
    &&& level == 1 ==> l1 is Some
    &&& level != 1 ==> l2_l3 is Some
}

/// The size field that answers for `(level, cache_type)`, in kilobytes.
/// `None` where the fields have no place for the pair, or the leaf that holds
/// the place is not offered.
pub open spec fn fixed_size_field(
    l1: Option<L1CacheInfo>,
    l2_l3: Option<L2L3CacheInfo>,
    level: u8,
    cache_type: CacheType,
) -> Option<int> {
    if level == 1 && cache_type == CacheType::Instruction {
        match l1 {
            Some(info) => Some(info.icache_size as int),
            None => None,
        }
    } else if level == 1 && cache_type == CacheType::Data {
        match l1 {
            Some(info) => Some(info.dcache_size as int),
            None => None,
        }
    } else if level == 2 && cache_type == CacheType::Unified {
        match l2_l3 {
            Some(info) => Some(info.l2cache_size as int),
            None => None,
        }
    } else if level == 3 && cache_type == CacheType::Unified {
        match l2_l3 {
            Some(info) => Some(info.l3cache_size as int),
            None => None,
        }
    } else {
        None
    }
}

/// The line-size field that answers for `(level, cache_type)`, in bytes.
/// `None` where the fields have no place for the pair, or the leaf that holds
/// the place is not offered.
pub open spec fn fixed_line_size_field(
    l1: Option<L1CacheInfo>,
    l2_l3: Option<L2L3CacheInfo>,
    level: u8,
    cache_type: CacheType,
) -> Option<int> {
    if level == 1 && cache_type == CacheType::Instruction {
        match l1 {
            Some(info) => Some(info.icache_line_size as int),
            None => None,
        }
    } else if level == 1 && cache_type == CacheType::Data {
        match l1 {
            Some(info) => Some(info.dcache_line_size as int),
            None => None,
        }
    } else if level == 2 && cache_type == CacheType::Unified {
        match l2_l3 {
            Some(info) => Some(info.l2cache_line_size as int),
            None => None,
        }
    } else if level == 3 && cache_type == CacheType::Unified {
        match l2_l3 {
            Some(info) => Some(info.l3cache_line_size as int),
            None => None,
        }
    } else {
        None
    }
}

/// The size in bytes that the fixed fields give for `(level, cache_type)`:
/// the size field times 1024.
pub open spec fn spec_amd_cache_size(
    l1: Option<L1CacheInfo>,
    l2_l3: Option<L2L3CacheInfo>,
    level: u8,
    cache_type: CacheType,
) -> Option<usize> {
    match fixed_size_field(l1, l2_l3, level, cache_type) {
        Some(kilobytes) => Some((kilobytes * 1024) as usize),
        None => None,
    }
}

/// The line size in bytes that the fixed fields give for
/// `(level, cache_type)`: the line-size field as it is.
pub open spec fn spec_amd_cache_line_size(
    l1: Option<L1CacheInfo>,
    l2_l3: Option<L2L3CacheInfo>,
    level: u8,
    cache_type: CacheType,
) -> Option<usize> {
    match fixed_line_size_field(l1, l2_l3, level, cache_type) {
        Some(bytes) => Some(bytes as usize),
        None => None,
    }
}

/// A report that holds the two leaves of the fixed fields and nothing else.
pub open spec fn leaves(l1: Option<L1CacheInfo>, l2_l3: Option<L2L3CacheInfo>) -> CpuReportView {
    CpuReportView {
        vendor: None,
        family: None,
        cache_parameters: None,
        l1_cache: l1,
        l2_l3_cache: l2_l3,
    }
}

/// A size field of kilobytes, in bytes.
fn kilobytes_to_bytes(kilobytes: u16) -> (bytes: usize)
    ensures
        bytes == kilobytes * 1024,
{
    kilobytes as usize * 1024
}

/// The size in bytes of the cache at `level` that holds `cache_type`, from the
/// fixed fields. Only the leaf that holds the field is read, and none where
/// the fields have no place for the pair.
///
/// The answer is what the fixed fields of a report of `provider` give.
pub fn amd_cache_size(provider: &Provider, level: u8, cache_type: CacheType) -> (r: Option<usize>)
    ensures
        exists|report: CpuReportView| #[trigger]
            provider.may_report(report) && r == spec_amd_cache_size(
                report.l1_cache,
                report.l2_l3_cache,
                level,
                cache_type,
            ),
        provider.report() matches Some(report) ==> r == spec_amd_cache_size(
            report.l1_cache,
            report.l2_l3_cache,
            level,
            cache_type,
        ),
        !has_fixed_fields(level, cache_type) ==> r is None,
        r matches Some(size) ==> size % 1024 == 0 && size <= 0xFFFF * 1024,
{
    let ghost mut read = CpuReportView::absent();
    let r = match (level, cache_type) {
        (1, CacheType::Instruction) => {
            let l1 = provider.l1_cache_info();
            proof {
                read = leaves(l1, None);
            }
            match l1 {
                Some(info) => Some(kilobytes_to_bytes(info.icache_size as u16)),
                None => None,
            }
        },
        (1, CacheType::Data) => {
            let l1 = provider.l1_cache_info();
            proof {
                read = leaves(l1, None);
            }
            match l1 {
                Some(info) => Some(kilobytes_to_bytes(info.dcache_size as u16)),
                None => None,
            }
        },
        (2, CacheType::Unified) => {
            let l2_l3 = provider.l2_l3_cache_info();
            proof {
                read = leaves(None, l2_l3);
            }
            match l2_l3 {
                Some(info) => Some(kilobytes_to_bytes(info.l2cache_size)),
                None => None,
            }
        },
        (3, CacheType::Unified) => {
            let l2_l3 = provider.l2_l3_cache_info();
            proof {
                read = leaves(None, l2_l3);
            }
            match l2_l3 {
                Some(info) => Some(kilobytes_to_bytes(info.l3cache_size)),
                None => None,
            }
        },
        _ => None,
    };
    assert(provider.may_report(provider.report_or(read)));
    r
}

/// The line size in bytes of the cache at `level` that holds `cache_type`,
/// from the fixed fields. Only the leaf that holds the field is read, and none
/// where the fields have no place for the pair.
///
/// The answer is what the fixed fields of a report of `provider` give.
pub fn amd_cache_line_size(provider: &Provider, level: u8, cache_type: CacheType) -> (r: Option<
    usize,
>)
    ensures
        exists|report: CpuReportView| #[trigger]
            provider.may_report(report) && r == spec_amd_cache_line_size(
                report.l1_cache,
                report.l2_l3_cache,
                level,
                cache_type,
            ),
        provider.report() matches Some(report) ==> r == spec_amd_cache_line_size(
            report.l1_cache,
            report.l2_l3_cache,
            level,
            cache_type,
        ),
        !has_fixed_fields(level, cache_type) ==> r is None,
        r matches Some(size) ==> size <= 0xFF,
{
    let ghost mut read = CpuReportView::absent();
    let r = match (level, cache_type) {
        (1, CacheType::Instruction) => {
            let l1 = provider.l1_cache_info();
            proof {
                read = leaves(l1, None);
            }
            match l1 {
                Some(info) => Some(info.icache_line_size as usize),
                None => None,
            }
        },
        (1, CacheType::Data) => {
            let l1 = provider.l1_cache_info();
            proof {
                read = leaves(l1, None);
            }
            match l1 {
                Some(info) => Some(info.dcache_line_size as usize),
                None => None,
            }
        },
        (2, CacheType::Unified) => {
            let l2_l3 = provider.l2_l3_cache_info();
            proof {
                read = leaves(None, l2_l3);
            }
            match l2_l3 {
                Some(info) => Some(info.l2cache_line_size as usize),
                None => None,
            }
        },
        (3, CacheType::Unified) => {
            let l2_l3 = provider.l2_l3_cache_info();
            proof {
                read = leaves(None, l2_l3);
            }
            match l2_l3 {
                Some(info) => Some(info.l3cache_line_size as usize),
                None => None,
            }
        },
        _ => None,
    };
    assert(provider.may_report(provider.report_or(read)));
    r
}

} // verus!

//! The queries, asked of the processor that runs the program.
//!
//! Each call reads the processor anew: nothing is kept between calls. What the
//! processor answers is not known beforehand, so these functions promise what
//! holds of every processor: the answer is the one that the queries give on
//! some report that a processor can give. [`Provider`] states the answer for
//! every such report.

use crate::provider::Provider;
use crate::report::CpuReportView;
use crate::CacheType;
use vstd::prelude::*;

verus! {

/// The total size in bytes of the cache at `level` that holds `cache_type`.
///
/// `None` where the processor reports no such cache. On a processor of the AMD
/// Zen family the size comes from the fixed fields, in kilobytes times 1024;
/// on every other as sets times ways times line size, the smallest where
/// several caches match.
pub fn cache_size(level: u8, cache_type: CacheType) -> (r: Option<usize>)
    ensures
        exists|report: CpuReportView| #[trigger]
            report.is_reportable() && r == report.cache_size(level, cache_type),
        level > 7 || !cache_type.names_a_cache() ==> r is None,
{
    let provider = Provider::native();
    let r = provider.cache_size(level, cache_type);
    proof {
        let report = choose|report: CpuReportView| #[trigger]
            provider.may_report(report) && r == report.cache_size(level, cache_type);
        assert(report.is_reportable());
    }
    r
}

/// The line size in bytes of the cache at `level` that holds `cache_type`.
///
/// `None` where the processor reports no such cache. Where several caches
/// match, the smallest line size is the answer.
pub fn cache_line_size(level: u8, cache_type: CacheType) -> (r: Option<usize>)
    ensures
        exists|report: CpuReportView| #[trigger]
            report.is_reportable() && r == report.cache_line_size(level, cache_type),
        level > 7 || !cache_type.names_a_cache() ==> r is None,
{
    let provider = Provider::native();
    let r = provider.cache_line_size(level, cache_type);
    proof {
        let report = choose|report: CpuReportView| #[trigger]
            provider.may_report(report) && r == report.cache_line_size(level, cache_type);
        assert(report.is_reportable());
    }
    r
}

/// The total size in bytes of the first-level data cache: the answer to
/// `cache_size(1, CacheType::Data)`.
pub fn l1_cache_size() -> (r: Option<usize>)
    ensures
        exists|report: CpuReportView| #[trigger]
            report.is_reportable() && r == report.cache_size(1, CacheType::Data),
{
    cache_size(1, CacheType::Data)
}

/// The line size in bytes of the first-level data cache: the answer to
/// `cache_line_size(1, CacheType::Data)`.
pub fn l1_cache_line_size() -> (r: Option<usize>)
    ensures
        exists|report: CpuReportView| #[trigger]
            report.is_reportable() && r == report.cache_line_size(1, CacheType::Data),
{
    cache_line_size(1, CacheType::Data)
}

/// The total size in bytes of the unified second-level cache: the answer to
/// `cache_size(2, CacheType::Unified)`.
pub fn l2_cache_size() -> (r: Option<usize>)
    ensures
        exists|report: CpuReportView| #[trigger]
            report.is_reportable() && r == report.cache_size(2, CacheType::Unified),
{
    cache_size(2, CacheType::Unified)
}

/// The line size in bytes of the unified second-level cache: the answer to
/// `cache_line_size(2, CacheType::Unified)`.
pub fn l2_cache_line_size() -> (r: Option<usize>)
    ensures
        exists|report: CpuReportView| #[trigger]
            report.is_reportable() && r == report.cache_line_size(2, CacheType::Unified),
{
    cache_line_size(2, CacheType::Unified)
}

/// The total size in bytes of the unified third-level cache: the answer to
/// `cache_size(3, CacheType::Unified)`.
pub fn l3_cache_size() -> (r: Option<usize>)
    ensures
        exists|report: CpuReportView| #[trigger]
            report.is_reportable() && r == report.cache_size(3, CacheType::Unified),
{
    cache_size(3, CacheType::Unified)
}

/// The line size in bytes of the unified third-level cache: the answer to
/// `cache_line_size(3, CacheType::Unified)`.
pub fn l3_cache_line_size() -> (r: Option<usize>)
    ensures
        exists|report: CpuReportView| #[trigger]
            report.is_reportable() && r == report.cache_line_size(3, CacheType::Unified),
{
    cache_line_size(3, CacheType::Unified)
}

} // verus!

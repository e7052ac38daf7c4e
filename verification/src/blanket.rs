//! The queries on a host without the `CPUID` instruction: every answer is
//! `None`.

use crate::CacheType;
use vstd::prelude::*;

verus! {

/// The total size in bytes of the cache at `level` that holds `cache_type`:
/// on a host that cannot be asked, always `None`.
pub fn cache_size(_level: u8, _cache_type: CacheType) -> (r: Option<usize>)
    ensures
        r is None,
{
    None
}

/// The line size in bytes of the cache at `level` that holds `cache_type`:
/// on a host that cannot be asked, always `None`.
pub fn cache_line_size(_level: u8, _cache_type: CacheType) -> (r: Option<usize>)
    ensures
        r is None,
{
    None
}

/// The total size in bytes of the first-level data cache: always `None`.
pub fn l1_cache_size() -> (r: Option<usize>)
    ensures
        r is None,
{
    None
}

/// The line size in bytes of the first-level data cache: always `None`.
pub fn l1_cache_line_size() -> (r: Option<usize>)
    ensures
        r is None,
{
    cache_line_size(1, CacheType::Data)
}

/// The total size in bytes of the unified second-level cache: always `None`.
pub fn l2_cache_size() -> (r: Option<usize>)
    ensures
        r is None,
{
    cache_size(2, CacheType::Unified)
}

/// The line size in bytes of the unified second-level cache: always `None`.
pub fn l2_cache_line_size() -> (r: Option<usize>)
    ensures
        r is None,
{
    cache_line_size(2, CacheType::Unified)
}

/// The total size in bytes of the unified third-level cache: always `None`.
pub fn l3_cache_size() -> (r: Option<usize>)
    ensures
        r is None,
{
    cache_size(3, CacheType::Unified)
}

/// The line size in bytes of the unified third-level cache: always `None`.
pub fn l3_cache_line_size() -> (r: Option<usize>)
    ensures
        r is None,
{
    cache_line_size(3, CacheType::Unified)
}

} // verus!

//! Size and line size of the processor's caches, as the `CPUID` instruction
//! reports them.
//!
//! A query names a cache by its level and by what it holds, and is answered in
//! bytes, or with `None` where the processor reports no such cache. The answers
//! are computed from what a [`Provider`] reports: the processor itself, a
//! recorded [`CpuReport`], or nothing at all on a host without `CPUID`.
//!
//! Processors of the AMD Zen family are asked through the fixed cache fields of
//! the extended leaves; every other processor through the enumeration of its
//! cache descriptors, of which the smallest matching one decides.

use vstd::prelude::*;

pub mod blanket;
pub mod classifier;
pub mod facade;
pub mod generic;
pub mod laws;
pub mod provider;
pub mod report;
pub mod x86;
pub mod zen;

pub use classifier::VendorIdentity;
pub use provider::Provider;
pub use report::{CacheDescriptor, CpuReport, FamilyInfo, L1CacheInfo, L2L3CacheInfo};
pub use x86::{
    cache_line_size, cache_size, l1_cache_line_size, l1_cache_size, l2_cache_line_size,
    l2_cache_size, l3_cache_line_size, l3_cache_size,
};

verus! {

/// What a cache holds.
///
/// `Null` and `Reserved` mirror the encoding of the cache-parameter leaf, where
/// `Null` ends the enumeration; no cache that a processor enumerates carries
/// either of them.
#[derive(Clone, Copy, Debug, PartialEq, Eq, Structural)]
pub enum CacheType {
    /// No more caches.
    Null,
    /// Data cache.
    Data,
    /// Instruction cache.
    Instruction,
    /// Data and instruction cache.
    Unified,
    /// An encoding that names no kind of cache.
    Reserved,
}

impl CacheType {
    /// Whether this is one of the three kinds that a cache can have.
    pub open spec fn names_a_cache(self) -> bool {
        self == CacheType::Data || self == CacheType::Instruction || self == CacheType::Unified
    }
}

} // verus!

//! What a processor reports about itself and its caches, as plain values.

use crate::CacheType;
use vstd::prelude::*;

verus! {

/// One cache of the enumeration in the cache-parameter leaf.
#[derive(Clone, Copy, Debug, PartialEq, Eq, Structural)]
pub struct CacheDescriptor {
    /// Distance from the core: 1 is nearest.
    pub level: u8,
    /// What the cache holds.
    pub cache_type: CacheType,
    /// Number of sets.
    pub sets: usize,
    /// Ways of associativity.
    pub associativity: usize,
    /// Coherency line size, in bytes.
    pub line_size: usize,
}

impl CacheDescriptor {
    /// Whether this is the cache that a query for `(level, cache_type)` asks
    /// about: both must be equal, a unified cache does not answer for data.
    pub open spec fn serves(self, level: u8, cache_type: CacheType) -> bool {
        self.level == level && self.cache_type == cache_type
    }

    /// Sets times ways times line size: the capacity in bytes, unbounded.
    pub open spec fn total_size(self) -> int {
        self.sets * self.associativity * self.line_size
    }

    /// What holds of every descriptor that the processor's enumeration yields.
    /// The level is a field of three bits, and the enumeration ends at the
    /// first entry of type `Null` or `Reserved`. The line size is a field of
    /// twelve bits plus one, the ways are a field of ten bits plus one, and the
    /// sets are held in 32 bits.
    pub open spec fn is_enumerated(self) -> bool {
        &&& self.level <= 7
        &&& self.cache_type.names_a_cache()
        &&& self.sets <= 0xFFFF_FFFF
        &&& 1 <= self.associativity <= 1024
        &&& 1 <= self.line_size <= 4096
    }
}

/// The family fields of the processor signature.
#[derive(Clone, Copy, Debug, PartialEq, Eq, Structural)]
pub struct FamilyInfo {
    /// Base family, four bits of the signature.
    pub base_family: u8,
    /// Extended family, eight bits of the signature.
    pub extended_family: u8,
}

/// The fixed first-level cache fields of extended leaf `0x8000_0005`.
#[derive(Clone, Copy, Debug, PartialEq, Eq, Structural)]
pub struct L1CacheInfo {
    /// Instruction cache size, in kilobytes.
    pub icache_size: u8,
    /// Instruction cache line size, in bytes.
    pub icache_line_size: u8,
    /// Data cache size, in kilobytes.
    pub dcache_size: u8,
    /// Data cache line size, in bytes.
    pub dcache_line_size: u8,
}

/// The fixed second- and third-level cache fields of extended leaf
/// `0x8000_0006`.
#[derive(Clone, Copy, Debug, PartialEq, Eq, Structural)]
pub struct L2L3CacheInfo {
    /// Second-level cache size, in kilobytes.
    pub l2cache_size: u16,
    /// Second-level cache line size, in bytes.
    pub l2cache_line_size: u8,
    /// Third-level cache size field. It is read as kilobytes, like the other
    /// size fields, though AMD documents it in units of 512 kilobytes.
    pub l3cache_size: u16,
    /// Third-level cache line size, in bytes.
    pub l3cache_line_size: u8,
}

/// Everything a query may consult, recorded from a processor or written down
/// by hand. Each part is `None` where the processor does not offer it.
#[derive(Clone, Debug)]
pub struct CpuReport {
    /// The vendor string, such as `"GenuineIntel"` or `"AuthenticAMD"`.
    pub vendor: Option<String>,
    /// The family fields of the processor signature.
    pub family: Option<FamilyInfo>,
    /// The enumerated cache descriptors, in the order of the enumeration.
    pub cache_parameters: Option<Vec<CacheDescriptor>>,
    /// The fixed first-level cache fields.
    pub l1_cache: Option<L1CacheInfo>,
    /// The fixed second- and third-level cache fields.
    pub l2_l3_cache: Option<L2L3CacheInfo>,
}

/// The mathematical content of a [`CpuReport`].
pub struct CpuReportView {
    pub vendor: Option<Seq<char>>,
    pub family: Option<FamilyInfo>,
    pub cache_parameters: Option<Seq<CacheDescriptor>>,
    pub l1_cache: Option<L1CacheInfo>,
    pub l2_l3_cache: Option<L2L3CacheInfo>,
}

/// The characters of an optional string.
pub open spec fn vendor_view(vendor: Option<String>) -> Option<Seq<char>> {
    match vendor {
        Some(v) => Some(v@),
        None => None,
    }
}

/// The elements of an optional list of descriptors.
pub open spec fn descriptors_view(descriptors: Option<Vec<CacheDescriptor>>) -> Option<
    Seq<CacheDescriptor>,
> {
    match descriptors {
        Some(d) => Some(d@),
        None => None,
    }
}

impl View for CpuReport {
    type V = CpuReportView;

    open spec fn view(&self) -> CpuReportView {
        CpuReportView {
            vendor: vendor_view(self.vendor),
            family: self.family,
            cache_parameters: descriptors_view(self.cache_parameters),
            l1_cache: self.l1_cache,
            l2_l3_cache: self.l2_l3_cache,
        }
    }
}

impl CpuReportView {
    /// Whether a processor can give this report: every descriptor of its
    /// enumeration is an enumerated one. The other parts can hold any value of
    /// their types.
    pub open spec fn is_reportable(self) -> bool {
        self.cache_parameters matches Some(descriptors) ==> forall|i: int|
            0 <= i < descriptors.len() ==> (#[trigger] descriptors[i]).is_enumerated()
    }

    /// The report of a host that offers nothing.
    pub open spec fn absent() -> CpuReportView {
        CpuReportView {
            vendor: None,
            family: None,
            cache_parameters: None,
            l1_cache: None,
            l2_l3_cache: None,
        }
    }
}

impl CpuReport {
    /// The report of a host that offers nothing.
    pub fn absent() -> (report: CpuReport)
        ensures
            report@ == CpuReportView::absent(),
    {
        CpuReport {
            vendor: None,
            family: None,
            cache_parameters: None,
            l1_cache: None,
            l2_l3_cache: None,
        }
    }
}

} // verus!

//! Where the answers come from: the processor, a recorded report, or nothing.
//!
//! The processor is read through the `raw_cpuid` crate. What it returns is
//! taken on trust and turned into the plain values of [`crate::report`]; the
//! functions that do so are the only ones here that are not proved.

use crate::report::{
    descriptors_view, vendor_view, CacheDescriptor, CpuReport, CpuReportView, FamilyInfo,
    L1CacheInfo, L2L3CacheInfo,
};
use crate::CacheType;
use raw_cpuid::{CpuId, CpuIdReaderNative};
use vstd::prelude::*;

verus! {

/// A handle on the `CPUID` instruction of the processor that runs the program:
/// a `raw_cpuid::CpuId` over the native reader. Nothing is known of what it
/// will report.
///
/// `CpuId` cannot be declared to Verus as it is, because its parameter is
/// bound by a trait of `raw_cpuid`; so it is kept in a struct whose inside
/// Verus does not read.
#[verifier::external_body]
pub struct NativeCpuId {
    inner: CpuId<CpuIdReaderNative>,
}

/// `raw_cpuid::CpuId::new`: a handle on the native `CPUID` instruction.
/// Nothing is claimed of it.
#[verifier::external_body]
fn open_native_cpuid() -> NativeCpuId {
    NativeCpuId { inner: CpuId::new() }
}

/// `CpuId::get_vendor_info` and `VendorInfo::as_str`: the vendor string of
/// leaf 0, or `None` where the leaf is not offered. Nothing is claimed of the
/// string.
#[verifier::external_body]
fn read_vendor(cpuid: &NativeCpuId) -> Option<String> {
    cpuid.inner.get_vendor_info().map(|v| v.as_str().to_owned())
}

/// `CpuId::get_feature_info`, with `FeatureInfo::base_family_id` and
/// `FeatureInfo::extended_family_id`: the family fields of leaf 1, or `None`
/// where the leaf is not offered. Nothing is claimed of the fields.
#[verifier::external_body]
fn read_family(cpuid: &NativeCpuId) -> Option<FamilyInfo> {
    cpuid.inner.get_feature_info().map(
        |f| FamilyInfo { base_family: f.base_family_id(), extended_family: f.extended_family_id() },
    )
}

/// `CpuId::get_cache_parameters`, walked to its end: every cache of the
/// enumeration with its level, type, sets, ways and line size, or `None` where
/// the processor offers no enumeration.
///
/// Claimed of each descriptor: its level is at most 7, because
/// `CacheParameter::level` is a field of three bits; its type is `Data`,
/// `Instruction` or `Unified`, because the iterator ends at the first entry
/// whose type is `Null` or `Reserved`; its line size is from 1 to 4096 and its
/// ways from 1 to 1024, because `CacheParameter::coherency_line_size` and
/// `CacheParameter::associativity` are fields of twelve and of ten bits plus
/// one; its sets fit in 32 bits, because `CacheParameter::sets` computes them
/// in `u32`.
///
/// `CacheParameter::sets` adds one to a register of 32 bits: on a processor
/// that reported the largest value there, a build with overflow checks would
/// panic here. No processor has that many sets.
#[verifier::external_body]
fn read_cache_descriptors(cpuid: &NativeCpuId) -> (r: Option<Vec<CacheDescriptor>>)
    ensures
        r matches Some(v) ==> forall|i: int| 0 <= i < v.len() ==> (#[trigger] v[i]).is_enumerated(),
{
    let caches = cpuid.inner.get_cache_parameters()?;
    Some(caches.map(|c| CacheDescriptor {
        level: c.level(),
        cache_type: match c.cache_type() {
            raw_cpuid::CacheType::Null => CacheType::Null,
            raw_cpuid::CacheType::Data => CacheType::Data,
            raw_cpuid::CacheType::Instruction => CacheType::Instruction,
            raw_cpuid::CacheType::Unified => CacheType::Unified,
            raw_cpuid::CacheType::Reserved => CacheType::Reserved,
        },
        sets: c.sets(),
        associativity: c.associativity(),
        line_size: c.coherency_line_size(),
    }).collect())
}

/// `CpuId::get_l1_cache_and_tlb_info`, with the four getters of
/// `L1CacheTlbInfo` for the instruction and data cache: sizes in kilobytes and
/// line sizes in bytes, or `None` where the leaf is not offered. Nothing is
/// claimed of the fields.
#[verifier::external_body]
fn read_l1_cache_info(cpuid: &NativeCpuId) -> Option<L1CacheInfo> {
    cpuid.inner.get_l1_cache_and_tlb_info().map(|i| L1CacheInfo {
        icache_size: i.icache_size(),
        icache_line_size: i.icache_line_size(),
        dcache_size: i.dcache_size(),
        dcache_line_size: i.dcache_line_size(),
    })
}

/// `CpuId::get_l2_l3_cache_and_tlb_info`, with the four getters of
/// `L2And3CacheTlbInfo` for the second- and third-level cache: the size fields
/// and the line sizes in bytes, or `None` where the leaf is not offered.
/// Nothing is claimed of the fields.
#[verifier::external_body]
fn read_l2_l3_cache_info(cpuid: &NativeCpuId) -> Option<L2L3CacheInfo> {
    cpuid.inner.get_l2_l3_cache_and_tlb_info().map(|i| L2L3CacheInfo {
        l2cache_size: i.l2cache_size(),
        l2cache_line_size: i.l2cache_line_size(),
        l3cache_size: i.l3cache_size(),
        l3cache_line_size: i.l3cache_line_size(),
    })
}

/// The source that a query consults.
pub enum Provider {
    /// The processor that runs the program. Each query reads it anew, and only
    /// the leaves that the query needs.
    Native(NativeCpuId),
    /// A report written down beforehand: every query is a function of it.
    Recorded(CpuReport),
    /// A host without the identification facility: it reports nothing.
    Unsupported,
}

impl Provider {
    /// What the provider reports, where that is fixed beforehand: the
    /// recorded report, or the absent one for an unsupported host. `None` for
    /// the processor, whose answers are known only once they are read.
    pub open spec fn report(&self) -> Option<CpuReportView> {
        match self {
            Provider::Native(_) => None,
            Provider::Recorded(report) => Some(report@),
            Provider::Unsupported => Some(CpuReportView::absent()),
        }
    }

    /// Whether `report` can be what the provider reports: the one report of
    /// a provider whose report is fixed beforehand, and for the processor
    /// every report that a processor can give.
    pub open spec fn may_report(&self, report: CpuReportView) -> bool {
        match self.report() {
            Some(fixed) => report == fixed,
            None => report.is_reportable(),
        }
    }

    /// The report of the provider where it is fixed beforehand, and `read`
    /// where it is not.
    pub open spec fn report_or(&self, read: CpuReportView) -> CpuReportView {
        match self.report() {
            Some(fixed) => fixed,
            None => read,
        }
    }

    /// A provider that reads the processor that runs the program.
    pub fn native() -> (provider: Provider)
        ensures
            provider is Native,
    {
        Provider::Native(open_native_cpuid())
    }

    /// The vendor string.
    pub fn vendor(&self) -> (r: Option<String>)
        ensures
            self.report() matches Some(report) ==> vendor_view(r) == report.vendor,
    {
        match self {
            Provider::Native(cpuid) => read_vendor(cpuid),
            Provider::Recorded(report) => match &report.vendor {
                Some(v) => Some(v.clone()),
                None => None,
            },
            Provider::Unsupported => None,
        }
    }

    /// The family fields of the processor signature.
    pub fn family(&self) -> (r: Option<FamilyInfo>)
        ensures
            self.report() matches Some(report) ==> r == report.family,
    {
        match self {
            Provider::Native(cpuid) => read_family(cpuid),
            Provider::Recorded(report) => report.family,
            Provider::Unsupported => None,
        }
    }

    /// The enumerated cache descriptors. Those of the processor are all
    /// enumerated ones; a recorded report may hold any.
    pub fn cache_descriptors(&self) -> (r: Option<Vec<CacheDescriptor>>)
        ensures
            self.report() matches Some(report) ==> descriptors_view(r) == report.cache_parameters,
            self is Native ==> (r matches Some(v) ==> forall|i: int|
                0 <= i < v.len() ==> (#[trigger] v[i]).is_enumerated()),
    {
        match self {
            Provider::Native(cpuid) => read_cache_descriptors(cpuid),
            Provider::Recorded(report) => match &report.cache_parameters {
                Some(d) => Some(d.clone()),
                None => None,
            },
            Provider::Unsupported => None,
        }
    }

    /// The fixed first-level cache fields.
    pub fn l1_cache_info(&self) -> (r: Option<L1CacheInfo>)
        ensures
            self.report() matches Some(report) ==> r == report.l1_cache,
    {
        match self {
            Provider::Native(cpuid) => read_l1_cache_info(cpuid),
            Provider::Recorded(report) => report.l1_cache,
            Provider::Unsupported => None,
        }
    }

    /// The fixed second- and third-level cache fields.
    pub fn l2_l3_cache_info(&self) -> (r: Option<L2L3CacheInfo>)
        ensures
            self.report() matches Some(report) ==> r == report.l2_l3_cache,
    {
        match self {
            Provider::Native(cpuid) => read_l2_l3_cache_info(cpuid),
            Provider::Recorded(report) => report.l2_l3_cache,
            Provider::Unsupported => None,
        }
    }
}

} // verus!

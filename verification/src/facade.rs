//! The queries: size and line size of a cache, named by level and type.
//!
//! A query first asks who made the processor. Without a vendor string there is
//! no answer. A processor of the AMD Zen family is then asked through its fixed
//! fields, every other one through the enumeration of its caches.

use crate::classifier::{classify, identity_view, spec_classify};
use crate::generic::{
    generic_cache_line_size, generic_cache_size, has_match, spec_generic_cache_line_size,
    spec_generic_cache_size,
};
use crate::provider::Provider;
use crate::report::CpuReportView;
use crate::zen::{
    amd_cache_line_size, amd_cache_size, fixed_fields_answer, spec_amd_cache_line_size,
    spec_amd_cache_size,
};
use crate::CacheType;
use vstd::prelude::*;

verus! {

impl CpuReportView {
    /// Whether the report is that of a processor of the AMD Zen family.
    pub open spec fn is_amd_zen(self) -> bool {
        spec_classify(self) matches Some(identity) && identity.is_amd_zen_family()
    }

    /// Whether the report holds a cache at `level` that holds `cache_type`,
    /// where the strategy for its processor looks for one.
    pub open spec fn has_cache(self, level: u8, cache_type: CacheType) -> bool {
        &&& self.vendor is Some
        &&& if self.is_amd_zen() {
            fixed_fields_answer(self.l1_cache, self.l2_l3_cache, level, cache_type)
        } else {
            self.cache_parameters matches Some(descriptors) && has_match(
                descriptors,
                level,
                cache_type,
            )
        }
    }

    /// The size in bytes of the cache at `level` that holds `cache_type`.
    pub open spec fn cache_size(self, level: u8, cache_type: CacheType) -> Option<usize> {
        if self.vendor is None {
            None
        } else if self.is_amd_zen() {
            spec_amd_cache_size(self.l1_cache, self.l2_l3_cache, level, cache_type)
        } else {
            spec_generic_cache_size(self.cache_parameters, level, cache_type)
        }
    }

    /// The line size in bytes of the cache at `level` that holds
    /// `cache_type`.
    pub open spec fn cache_line_size(self, level: u8, cache_type: CacheType) -> Option<usize> {
        if self.vendor is None {
            None
        } else if self.is_amd_zen() {
            spec_amd_cache_line_size(self.l1_cache, self.l2_l3_cache, level, cache_type)
        } else {
            spec_generic_cache_line_size(self.cache_parameters, level, cache_type)
        }
    }
}

/// A report with the vendor string and family fields of `identity` and every
/// other part of `caches`.
pub open spec fn joined(identity: CpuReportView, caches: CpuReportView) -> CpuReportView {
    CpuReportView {
        vendor: identity.vendor,
        family: identity.family,
        cache_parameters: caches.cache_parameters,
        l1_cache: caches.l1_cache,
        l2_l3_cache: caches.l2_l3_cache,
    }
}

impl Provider {
    /// The total size in bytes of the cache at `level` that holds
    /// `cache_type`.
    ///
    /// The answer is the size that a report of the provider gives: `None`
    /// where it reports no vendor string or no such cache, and where the size
    /// is more than `usize` can hold. The processor itself never has a cache
    /// above level 7, nor one of type `Null` or `Reserved`.
    pub fn cache_size(&self, level: u8, cache_type: CacheType) -> (r: Option<usize>)
        ensures
            exists|report: CpuReportView| #[trigger]
                self.may_report(report) && r == report.cache_size(level, cache_type),
            self.report() matches Some(report) ==> r == report.cache_size(level, cache_type),
            self is Unsupported ==> r is None,
            self is Native && (level > 7 || !cache_type.names_a_cache()) ==> r is None,
    {
        let classified = classify(self);
        let ghost identity = choose|report: CpuReportView| #[trigger]
            self.may_report(report) && identity_view(classified) == spec_classify(report);
        let ghost mut caches = CpuReportView::absent();
        let r = match classified {
            Some(identity) => if identity.is_amd_zen_family() {
                let size = amd_cache_size(self, level, cache_type);
                proof {
                    caches = choose|report: CpuReportView| #[trigger]
                        self.may_report(report) && size == spec_amd_cache_size(
                            report.l1_cache,
                            report.l2_l3_cache,
                            level,
                            cache_type,
                        );
                }
                size
            } else {
                let size = generic_cache_size(self, level, cache_type);
                proof {
                    caches = choose|report: CpuReportView| #[trigger]
                        self.may_report(report) && size == spec_generic_cache_size(
                            report.cache_parameters,
                            level,
                            cache_type,
                        );
                }
                size
            },
            None => None,
        };
        proof {
            let report = self.report_or(joined(identity, caches));
            assert(spec_classify(report) == spec_classify(identity));
            assert(self.may_report(report));
            assert(r == report.cache_size(level, cache_type));
        }
        r
    }

    /// The line size in bytes of the cache at `level` that holds
    /// `cache_type`.
    ///
    /// The answer is the line size that a report of the provider gives:
    /// `None` where it reports no vendor string or no such cache. The
    /// processor itself never has a cache above level 7, nor one of type
    /// `Null` or `Reserved`.
    pub fn cache_line_size(&self, level: u8, cache_type: CacheType) -> (r: Option<usize>)
        ensures
            exists|report: CpuReportView| #[trigger]
                self.may_report(report) && r == report.cache_line_size(level, cache_type),
            self.report() matches Some(report) ==> r == report.cache_line_size(level, cache_type),
            self is Unsupported ==> r is None,
            self is Native && (level > 7 || !cache_type.names_a_cache()) ==> r is None,
    {
        let classified = classify(self);
        let ghost identity = choose|report: CpuReportView| #[trigger]
            self.may_report(report) && identity_view(classified) == spec_classify(report);
        let ghost mut caches = CpuReportView::absent();
        let r = match classified {
            Some(identity) => if identity.is_amd_zen_family() {
                let size = amd_cache_line_size(self, level, cache_type);
                proof {
                    caches = choose|report: CpuReportView| #[trigger]
                        self.may_report(report) && size == spec_amd_cache_line_size(
                            report.l1_cache,
                            report.l2_l3_cache,
                            level,
                            cache_type,
                        );
                }
                size
            } else {
                let size = generic_cache_line_size(self, level, cache_type);
                proof {
                    caches = choose|report: CpuReportView| #[trigger]
                        self.may_report(report) && size == spec_generic_cache_line_size(
                            report.cache_parameters,
                            level,
                            cache_type,
                        );
                }
                size
            },
            None => None,
        };
        proof {
            let report = self.report_or(joined(identity, caches));
            assert(spec_classify(report) == spec_classify(identity));
            assert(self.may_report(report));
            assert(r == report.cache_line_size(level, cache_type));
        }
        r
    }

    /// The total size in bytes of the first-level data cache: the answer to
    /// `cache_size(1, CacheType::Data)`.
    pub fn l1_cache_size(&self) -> (r: Option<usize>)
        ensures
            exists|report: CpuReportView| #[trigger]
                self.may_report(report) && r == report.cache_size(1, CacheType::Data),
            self.report() matches Some(report) ==> r == report.cache_size(1, CacheType::Data),
            self is Unsupported ==> r is None,
    {
        self.cache_size(1, CacheType::Data)
    }

    /// The line size in bytes of the first-level data cache: the answer to
    /// `cache_line_size(1, CacheType::Data)`.
    pub fn l1_cache_line_size(&self) -> (r: Option<usize>)
        ensures
            exists|report: CpuReportView| #[trigger]
                self.may_report(report) && r == report.cache_line_size(1, CacheType::Data),
            self.report() matches Some(report) ==> r == report.cache_line_size(1, CacheType::Data),
            self is Unsupported ==> r is None,
    {
        self.cache_line_size(1, CacheType::Data)
    }

    /// The total size in bytes of the unified second-level cache: the answer
    /// to `cache_size(2, CacheType::Unified)`.
    pub fn l2_cache_size(&self) -> (r: Option<usize>)
        ensures
            exists|report: CpuReportView| #[trigger]
                self.may_report(report) && r == report.cache_size(2, CacheType::Unified),
            self.report() matches Some(report) ==> r == report.cache_size(2, CacheType::Unified),
            self is Unsupported ==> r is None,
    {
        self.cache_size(2, CacheType::Unified)
    }

    /// The line size in bytes of the unified second-level cache: the answer to
    /// `cache_line_size(2, CacheType::Unified)`.
    pub fn l2_cache_line_size(&self) -> (r: Option<usize>)
        ensures
            exists|report: CpuReportView| #[trigger]
                self.may_report(report) && r == report.cache_line_size(2, CacheType::Unified),
            self.report() matches Some(report) ==> r == report.cache_line_size(
                2,
                CacheType::Unified,
            ),
            self is Unsupported ==> r is None,
    {
        self.cache_line_size(2, CacheType::Unified)
    }

    /// The total size in bytes of the unified third-level cache: the answer to
    /// `cache_size(3, CacheType::Unified)`.
    pub fn l3_cache_size(&self) -> (r: Option<usize>)
        ensures
            exists|report: CpuReportView| #[trigger]
                self.may_report(report) && r == report.cache_size(3, CacheType::Unified),
            self.report() matches Some(report) ==> r == report.cache_size(3, CacheType::Unified),
            self is Unsupported ==> r is None,
    {
        self.cache_size(3, CacheType::Unified)
    }

    /// The line size in bytes of the unified third-level cache: the answer to
    /// `cache_line_size(3, CacheType::Unified)`.
    pub fn l3_cache_line_size(&self) -> (r: Option<usize>)
        ensures
            exists|report: CpuReportView| #[trigger]
                self.may_report(report) && r == report.cache_line_size(3, CacheType::Unified),
            self.report() matches Some(report) ==> r == report.cache_line_size(
                3,
                CacheType::Unified,
            ),
            self is Unsupported ==> r is None,
    {
        self.cache_line_size(3, CacheType::Unified)
    }
}

} // verus!

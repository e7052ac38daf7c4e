//! What holds of the queries on every report.

use crate::generic::{
    has_match, is_least, least_line_size, least_total_size, lemma_least_measure,
};
use crate::provider::Provider;
use crate::report::{CacheDescriptor, CpuReportView};
use crate::CacheType;
use vstd::prelude::*;

verus! {

/// A cache that the report does not hold has neither a size nor a line size;
/// one that it holds always has a line size.
pub proof fn law_no_cache_no_answer(report: CpuReportView, level: u8, cache_type: CacheType)
    ensures
        !report.has_cache(level, cache_type) ==> report.cache_size(level, cache_type) is None,
        report.cache_line_size(level, cache_type) is Some <==> report.has_cache(level, cache_type),
{
    if report.vendor is Some && !report.is_amd_zen() && report.cache_parameters is Some {
        let descriptors = report.cache_parameters.unwrap();
        let total = |d: CacheDescriptor| d.total_size();
        let line = |d: CacheDescriptor| d.line_size as int;
        lemma_least_measure(descriptors, level, cache_type, total);
        lemma_least_measure(descriptors, level, cache_type, line);
        if least_line_size(descriptors, level, cache_type) is Some {
            let least = least_line_size(descriptors, level, cache_type).unwrap();
            let i = choose|i: int|
                0 <= i < descriptors.len() && (#[trigger] descriptors[i]).serves(level, cache_type)
                    && line(descriptors[i]) == least;
            assert(least == descriptors[i].line_size);
        }
    }
}

/// The size of a cache is at least its line size, where the report gives
/// both.
///
/// From the enumeration this holds where every matching descriptor has at
/// least one way and one set, so that its size is its line size times a
/// positive number. The fixed fields of the AMD Zen family hold size and line
/// size apart: there it holds but for a size field of zero beside a line size
/// that is not zero.
pub proof fn law_size_at_least_line_size(report: CpuReportView, level: u8, cache_type: CacheType)
    requires
        report.cache_size(level, cache_type) is Some,
        report.cache_line_size(level, cache_type) is Some,
        !report.is_amd_zen() ==> forall|i: int|
            0 <= i < report.cache_parameters.unwrap().len() && (
            #[trigger] report.cache_parameters.unwrap()[i]).serves(level, cache_type)
                ==> report.cache_parameters.unwrap()[i].associativity
                * report.cache_parameters.unwrap()[i].sets >= 1,
        report.is_amd_zen() ==> report.cache_size(level, cache_type) != Some(0usize)
            || report.cache_line_size(level, cache_type) == Some(0usize),
    ensures
        report.cache_size(level, cache_type).unwrap() >= report.cache_line_size(
            level,
            cache_type,
        ).unwrap(),
{
    if !report.is_amd_zen() {
        let descriptors = report.cache_parameters.unwrap();
        let total = |d: CacheDescriptor| d.total_size();
        let line = |d: CacheDescriptor| d.line_size as int;
        lemma_least_measure(descriptors, level, cache_type, total);
        lemma_least_measure(descriptors, level, cache_type, line);
        let size = least_total_size(descriptors, level, cache_type).unwrap();
        let least_line = least_line_size(descriptors, level, cache_type).unwrap();
        assert(is_least(descriptors, level, cache_type, total, size));
        assert(is_least(descriptors, level, cache_type, line, least_line));
        let i = choose|i: int|
            0 <= i < descriptors.len() && (#[trigger] descriptors[i]).serves(level, cache_type)
                && total(descriptors[i]) == size;
        let d = descriptors[i];
        assert(least_line <= line(d));
        assert(d.sets * d.associativity * d.line_size >= d.line_size) by (nonlinear_arith)
            requires
                d.associativity * d.sets >= 1,
                d.line_size >= 0,
        ;
    }
}

/// What every answer obeys that comes from a report that a processor can
/// give: there is no cache above level 7 nor of type `Null` or `Reserved`, no
/// line is longer than 4096 bytes, and no size is more than the largest
/// numbers of sets, ways and bytes in a line allow.
pub proof fn law_processor_answers_are_bounded(
    report: CpuReportView,
    level: u8,
    cache_type: CacheType,
)
    requires
        report.is_reportable(),
    ensures
        level > 7 || !cache_type.names_a_cache() ==> !report.has_cache(level, cache_type),
        report.cache_line_size(level, cache_type) matches Some(line_size) ==> line_size <= 4096,
        report.cache_size(level, cache_type) matches Some(size) ==> size <= 0xFFFF_FFFF * 1024
            * 4096,
{
    if report.vendor is Some && !report.is_amd_zen() && report.cache_parameters is Some {
        let descriptors = report.cache_parameters.unwrap();
        let total = |d: CacheDescriptor| d.total_size();
        let line = |d: CacheDescriptor| d.line_size as int;
        lemma_least_measure(descriptors, level, cache_type, total);
        lemma_least_measure(descriptors, level, cache_type, line);
        if least_line_size(descriptors, level, cache_type) is Some {
            let least = least_line_size(descriptors, level, cache_type).unwrap();
            let i = choose|i: int|
                0 <= i < descriptors.len() && (#[trigger] descriptors[i]).serves(level, cache_type)
                    && line(descriptors[i]) == least;
            assert(descriptors[i].is_enumerated());
        }
        if least_total_size(descriptors, level, cache_type) is Some {
            let least = least_total_size(descriptors, level, cache_type).unwrap();
            let i = choose|i: int|
                0 <= i < descriptors.len() && (#[trigger] descriptors[i]).serves(level, cache_type)
                    && total(descriptors[i]) == least;
            let d = descriptors[i];
            assert(d.is_enumerated());
            assert(d.sets * d.associativity * d.line_size <= 0xFFFF_FFFF * 1024 * 4096)
                by (nonlinear_arith)
                requires
                    0 <= d.sets <= 0xFFFF_FFFF,
                    0 <= d.associativity <= 1024,
                    0 <= d.line_size <= 4096,
            ;
        }
        if has_match(descriptors, level, cache_type) {
            let i = choose|i: int|
                0 <= i < descriptors.len() && (#[trigger] descriptors[i]).serves(level, cache_type);
            assert(descriptors[i].is_enumerated());
        }
    }
}

/// A first-level data cache query is the query for level 1 and type `Data`,
/// and so for the five other bindings: on one report, whatever a binding may
/// answer is what the query it binds may answer.
pub proof fn law_bindings_agree(
    provider: Provider,
    bound: Option<usize>,
    size: Option<usize>,
    line_size: Option<usize>,
)
    requires
        provider.report() is Some,
    ensures
        call_ensures(Provider::l1_cache_size, (&provider,), bound) && call_ensures(
            Provider::cache_size,
            (&provider, 1u8, CacheType::Data),
            size,
        ) ==> bound == size,
        call_ensures(Provider::l2_cache_size, (&provider,), bound) && call_ensures(
            Provider::cache_size,
            (&provider, 2u8, CacheType::Unified),
            size,
        ) ==> bound == size,
        call_ensures(Provider::l3_cache_size, (&provider,), bound) && call_ensures(
            Provider::cache_size,
            (&provider, 3u8, CacheType::Unified),
            size,
        ) ==> bound == size,
        call_ensures(Provider::l1_cache_line_size, (&provider,), bound) && call_ensures(
            Provider::cache_line_size,
            (&provider, 1u8, CacheType::Data),
            line_size,
        ) ==> bound == line_size,
        call_ensures(Provider::l2_cache_line_size, (&provider,), bound) && call_ensures(
            Provider::cache_line_size,
            (&provider, 2u8, CacheType::Unified),
            line_size,
        ) ==> bound == line_size,
        call_ensures(Provider::l3_cache_line_size, (&provider,), bound) && call_ensures(
            Provider::cache_line_size,
            (&provider, 3u8, CacheType::Unified),
            line_size,
        ) ==> bound == line_size,
{
}

/// Asked twice of one report, a query answers twice the same: nothing is
/// kept between calls that could change the answer.
pub proof fn law_repeated_queries_agree(
    provider: Provider,
    level: u8,
    cache_type: CacheType,
    first: Option<usize>,
    second: Option<usize>,
)
    requires
        provider.report() is Some,
    ensures
        call_ensures(Provider::cache_size, (&provider, level, cache_type), first) && call_ensures(
            Provider::cache_size,
            (&provider, level, cache_type),
            second,
        ) ==> first == second,
        call_ensures(Provider::cache_line_size, (&provider, level, cache_type), first)
            && call_ensures(Provider::cache_line_size, (&provider, level, cache_type), second)
            ==> first == second,
{
}

/// A host that offers nothing has no cache to report: every query on the
/// absent report is without answer.
pub proof fn law_absent_report_has_no_answer(level: u8, cache_type: CacheType)
    ensures
        CpuReportView::absent().cache_size(level, cache_type) is None,
        CpuReportView::absent().cache_line_size(level, cache_type) is None,
        !CpuReportView::absent().has_cache(level, cache_type),
{
}

} // verus!

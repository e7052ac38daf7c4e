//! The generic strategy: the enumeration of cache descriptors.
//!
//! Every descriptor whose level and type equal those asked for is a
//! candidate. Where several are, the smallest decides: whoever sizes a working
//! set by the answer must not assume more than every such cache offers.
//!
//! Total sizes are compared as unbounded integers and narrowed to `usize`
//! last: a least size that `usize` cannot hold is answered with `None`.

use crate::provider::Provider;
use crate::report::{descriptors_view, CacheDescriptor, CpuReportView};
use crate::CacheType;
use vstd::prelude::*;

verus! {

/// Whether some descriptor is the cache asked for.
pub open spec fn has_match(
    descriptors: Seq<CacheDescriptor>,
    level: u8,
    cache_type: CacheType,
) -> bool {
    exists|i: int|
        0 <= i < descriptors.len() && (#[trigger] descriptors[i]).serves(level, cache_type)
}

/// Whether `least` is the smallest value of `measure` among the descriptors
/// that are the cache asked for: one of them has it, and none has less.
pub open spec fn is_least(
    descriptors: Seq<CacheDescriptor>,
    level: u8,
    cache_type: CacheType,
    measure: spec_fn(CacheDescriptor) -> int,
    least: int,
) -> bool {
    &&& exists|i: int|
        0 <= i < descriptors.len() && (#[trigger] descriptors[i]).serves(level, cache_type)
            && measure(descriptors[i]) == least
    &&& forall|i: int|
        0 <= i < descriptors.len() && (#[trigger] descriptors[i]).serves(level, cache_type)
            ==> least <= measure(descriptors[i])
}

/// The smallest value of `measure` among the descriptors that are the cache
/// asked for, or `None` where there is no such descriptor.
pub open spec fn least_measure(
    descriptors: Seq<CacheDescriptor>,
    level: u8,
    cache_type: CacheType,
    measure: spec_fn(CacheDescriptor) -> int,
) -> Option<int>
    decreases descriptors.len(),
{
    if descriptors.len() == 0 {
        None
    } else {
        let before = least_measure(descriptors.drop_last(), level, cache_type, measure);
        let last = descriptors.last();
        if !last.serves(level, cache_type) {
            before
        } else if before is Some && before.unwrap() <= measure(last) {
            before
        } else {
            Some(measure(last))
        }
    }
}

/// The smallest total size among the descriptors that are the cache asked for.
pub open spec fn least_total_size(
    descriptors: Seq<CacheDescriptor>,
    level: u8,
    cache_type: CacheType,
) -> Option<int> {
    least_measure(descriptors, level, cache_type, |d: CacheDescriptor| d.total_size())
}

/// The smallest line size among the descriptors that are the cache asked for.
pub open spec fn least_line_size(
    descriptors: Seq<CacheDescriptor>,
    level: u8,
    cache_type: CacheType,
) -> Option<int> {
    least_measure(descriptors, level, cache_type, |d: CacheDescriptor| d.line_size as int)
}

/// A byte count as `usize`, where `usize` can hold it.
pub open spec fn narrowed(bytes: Option<int>) -> Option<usize> {
    match bytes {
        Some(b) if 0 <= b <= usize::MAX => Some(b as usize),
        _ => None,
    }
}

/// The size in bytes that an enumeration gives for `(level, cache_type)`:
/// the least total size, where there is an enumeration, a descriptor matches
/// and `usize` can hold the size.
pub open spec fn spec_generic_cache_size(
    cache_parameters: Option<Seq<CacheDescriptor>>,
    level: u8,
    cache_type: CacheType,
) -> Option<usize> {
    match cache_parameters {
        Some(descriptors) => narrowed(least_total_size(descriptors, level, cache_type)),
        None => None,
    }
}

/// The line size in bytes that an enumeration gives for
/// `(level, cache_type)`: the least line size, where there is an enumeration
/// and a descriptor matches.
pub open spec fn spec_generic_cache_line_size(
    cache_parameters: Option<Seq<CacheDescriptor>>,
    level: u8,
    cache_type: CacheType,
) -> Option<usize> {
    match cache_parameters {
        Some(descriptors) => narrowed(least_line_size(descriptors, level, cache_type)),
        None => None,
    }
}

/// `least_measure` is `None` exactly where no descriptor matches, and else the
/// least value of `measure` among those that do.
pub proof fn lemma_least_measure(
    descriptors: Seq<CacheDescriptor>,
    level: u8,
    cache_type: CacheType,
    measure: spec_fn(CacheDescriptor) -> int,
)
    ensures
        least_measure(descriptors, level, cache_type, measure) is None <==> !has_match(
            descriptors,
            level,
            cache_type,
        ),
        least_measure(descriptors, level, cache_type, measure) matches Some(least) ==> is_least(
            descriptors,
            level,
            cache_type,
            measure,
            least,
        ),
    decreases descriptors.len(),
{
    if descriptors.len() > 0 {
        let before = descriptors.drop_last();
        let last = descriptors.last();
        let n = descriptors.len() - 1;
        lemma_least_measure(before, level, cache_type, measure);
        assert forall|i: int| 0 <= i < n implies before[i] == descriptors[i] by {}
        if has_match(before, level, cache_type) {
            let j = choose|j: int| 0 <= j < n && (#[trigger] before[j]).serves(level, cache_type);
            assert(descriptors[j].serves(level, cache_type));
        }
        if last.serves(level, cache_type) {
            assert(descriptors[n].serves(level, cache_type));
        }
        match least_measure(descriptors, level, cache_type, measure) {
            Some(least) => {
                if last.serves(level, cache_type) && least == measure(last) {
                    assert(descriptors[n].serves(level, cache_type) && measure(descriptors[n])
                        == least);
                } else {
                    let j = choose|j: int|
                        0 <= j < n && (#[trigger] before[j]).serves(level, cache_type) && measure(
                            before[j],
                        ) == least;
                    assert(descriptors[j].serves(level, cache_type) && measure(descriptors[j])
                        == least);
                }
                assert forall|i: int|
                    0 <= i < descriptors.len() && (#[trigger] descriptors[i]).serves(
                        level,
                        cache_type,
                    ) implies least <= measure(descriptors[i]) by {
                    if i < n {
                        assert(before[i].serves(level, cache_type));
                    }
                }
            },
            None => {
                assert forall|i: int| 0 <= i < descriptors.len() implies !(
                #[trigger] descriptors[i]).serves(level, cache_type) by {
                    if i < n {
                        assert(!before[i].serves(level, cache_type));
                    }
                }
            },
        }
    }
}

/// The total size of one descriptor, where `usize` can hold it.
fn checked_total_size(descriptor: &CacheDescriptor) -> (r: Option<usize>)
    ensures
        r == narrowed(Some(descriptor.total_size())),
{
    let sets = descriptor.sets;
    let ways = descriptor.associativity;
    let line = descriptor.line_size;
    if sets == 0 || ways == 0 || line == 0 {
        assert(sets * ways * line == 0) by (nonlinear_arith)
            requires
                sets == 0 || ways == 0 || line == 0,
        ;
        return Some(0);
    }
    match sets.checked_mul(ways) {
        Some(lines) => lines.checked_mul(line),
        None => {
            assert(sets * ways * line > usize::MAX) by (nonlinear_arith)
                requires
                    sets * ways > usize::MAX,
                    line >= 1,
            ;
            None
        },
    }
}

/// The smallest total size, in bytes, among the descriptors whose level and
/// type are those asked for.
///
/// `None` where no descriptor matches, and where the least total size is more
/// than `usize` can hold.
pub fn smallest_total_size(
    descriptors: &Vec<CacheDescriptor>,
    level: u8,
    cache_type: CacheType,
) -> (r: Option<usize>)
    ensures
        r == narrowed(least_total_size(descriptors@, level, cache_type)),
        r matches Some(size) ==> is_least(
            descriptors@,
            level,
            cache_type,
            |d: CacheDescriptor| d.total_size(),
            size as int,
        ),
        r is None <==> forall|i: int|
            0 <= i < descriptors.len() && (#[trigger] descriptors[i]).serves(level, cache_type)
                ==> descriptors[i].total_size() > usize::MAX,
{
    let ghost measure = |d: CacheDescriptor| d.total_size();
    let mut best: Option<usize> = None;
    let mut i: usize = 0;
    while i < descriptors.len()
        invariant
            i <= descriptors.len(),
            measure == |d: CacheDescriptor| d.total_size(),
            best == narrowed(least_measure(descriptors@.take(i as int), level, cache_type, measure)),
        decreases descriptors.len() - i,
    {
        let descriptor = descriptors[i];
        proof {
            assert(descriptors@.take(i + 1).drop_last() == descriptors@.take(i as int));
            assert(descriptors@.take(i + 1).last() == descriptor);
            lemma_least_measure(descriptors@.take(i as int), level, cache_type, measure);
        }
        if descriptor.level == level && descriptor.cache_type == cache_type {
            match checked_total_size(&descriptor) {
                Some(size) => {
                    best = match best {
                        Some(least) if least <= size => Some(least),
                        _ => Some(size),
                    };
                },
                None => {},
            }
        }
        i += 1;
    }
    proof {
        assert(descriptors@.take(i as int) == descriptors@);
        lemma_least_measure(descriptors@, level, cache_type, measure);
    }
    best
}

/// The smallest line size, in bytes, among the descriptors whose level and
/// type are those asked for; `None` where no descriptor matches.
pub fn smallest_line_size(
    descriptors: &Vec<CacheDescriptor>,
    level: u8,
    cache_type: CacheType,
) -> (r: Option<usize>)
    ensures
        r == narrowed(least_line_size(descriptors@, level, cache_type)),
        r matches Some(size) ==> is_least(
            descriptors@,
            level,
            cache_type,
            |d: CacheDescriptor| d.line_size as int,
            size as int,
        ),
        r is None <==> !has_match(descriptors@, level, cache_type),
{
    let ghost measure = |d: CacheDescriptor| d.line_size as int;
    let mut best: Option<usize> = None;
    let mut i: usize = 0;
    while i < descriptors.len()
        invariant
            i <= descriptors.len(),
            measure == |d: CacheDescriptor| d.line_size as int,
            best matches Some(least) ==> least_measure(
                descriptors@.take(i as int),
                level,
                cache_type,
                measure,
            ) == Some(least as int),
            best is None ==> least_measure(descriptors@.take(i as int), level, cache_type, measure)
                is None,
        decreases descriptors.len() - i,
    {
        let descriptor = descriptors[i];
        proof {
            assert(descriptors@.take(i + 1).drop_last() == descriptors@.take(i as int));
            assert(descriptors@.take(i + 1).last() == descriptor);
        }
        if descriptor.level == level && descriptor.cache_type == cache_type {
            best = match best {
                Some(least) if least <= descriptor.line_size => Some(least),
                _ => Some(descriptor.line_size),
            };
        }
        i += 1;
    }
    proof {
        assert(descriptors@.take(i as int) == descriptors@);
        lemma_least_measure(descriptors@, level, cache_type, measure);
    }
    best
}

/// A report that holds an enumeration and nothing else.
pub open spec fn enumeration(cache_parameters: Option<Seq<CacheDescriptor>>) -> CpuReportView {
    CpuReportView {
        vendor: None,
        family: None,
        cache_parameters,
        l1_cache: None,
        l2_l3_cache: None,
    }
}

/// The size in bytes of the cache at `level` that holds `cache_type`, from the
/// enumeration of `provider`: the smallest total size among the descriptors
/// that match.
///
/// The answer is what the enumeration of a report of `provider` gives.
pub fn generic_cache_size(provider: &Provider, level: u8, cache_type: CacheType) -> (r: Option<
    usize,
>)
    ensures
        exists|report: CpuReportView| #[trigger]
            provider.may_report(report) && r == spec_generic_cache_size(
                report.cache_parameters,
                level,
                cache_type,
            ),
        provider.report() matches Some(report) ==> r == spec_generic_cache_size(
            report.cache_parameters,
            level,
            cache_type,
        ),
        provider is Native && (level > 7 || !cache_type.names_a_cache()) ==> r is None,
{
    let read = provider.cache_descriptors();
    let r = match &read {
        Some(descriptors) => smallest_total_size(descriptors, level, cache_type),
        None => None,
    };
    assert(provider.may_report(provider.report_or(enumeration(descriptors_view(read)))));
    r
}

/// The line size in bytes of the cache at `level` that holds `cache_type`,
/// from the enumeration of `provider`: the smallest line size among the
/// descriptors that match.
///
/// The answer is what the enumeration of a report of `provider` gives.
pub fn generic_cache_line_size(provider: &Provider, level: u8, cache_type: CacheType) -> (r:
    Option<usize>)
    ensures
        exists|report: CpuReportView| #[trigger]
            provider.may_report(report) && r == spec_generic_cache_line_size(
                report.cache_parameters,
                level,
                cache_type,
            ),
        provider.report() matches Some(report) ==> r == spec_generic_cache_line_size(
            report.cache_parameters,
            level,
            cache_type,
        ),
        provider is Native && (level > 7 || !cache_type.names_a_cache()) ==> r is None,
{
    let read = provider.cache_descriptors();
    let r = match &read {
        Some(descriptors) => smallest_line_size(descriptors, level, cache_type),
        None => None,
    };
    assert(provider.may_report(provider.report_or(enumeration(descriptors_view(read)))));
    r
}

} // verus!

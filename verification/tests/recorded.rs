//! The queries on reports written down by hand.

use cache_size::classifier::{amd_is_zen, classify, is_amd_vendor};
use cache_size::generic::{
    generic_cache_line_size, generic_cache_size, smallest_line_size, smallest_total_size,
};
use cache_size::zen::{amd_cache_line_size, amd_cache_size};
use cache_size::{
    CacheDescriptor, CacheType, CpuReport, FamilyInfo, L1CacheInfo, L2L3CacheInfo, Provider,
    VendorIdentity,
};

const ALL_TYPES: [CacheType; 5] = [
    CacheType::Null,
    CacheType::Data,
    CacheType::Instruction,
    CacheType::Unified,
    CacheType::Reserved,
];

fn descriptor(
    level: u8,
    cache_type: CacheType,
    sets: usize,
    associativity: usize,
    line_size: usize,
) -> CacheDescriptor {
    CacheDescriptor { level, cache_type, sets, associativity, line_size }
}

fn family(base_family: u8, extended_family: u8) -> Option<FamilyInfo> {
    Some(FamilyInfo { base_family, extended_family })
}

/// A processor that is asked through its enumeration.
fn intel(descriptors: Vec<CacheDescriptor>) -> Provider {
    Provider::Recorded(CpuReport {
        vendor: Some(String::from("GenuineIntel")),
        family: family(0x6, 0x0),
        cache_parameters: Some(descriptors),
        l1_cache: None,
        l2_l3_cache: None,
    })
}

/// The enumeration of a common desktop processor.
fn desktop_descriptors() -> Vec<CacheDescriptor> {
    vec![
        descriptor(1, CacheType::Data, 64, 8, 64),
        descriptor(1, CacheType::Instruction, 64, 8, 64),
        descriptor(2, CacheType::Unified, 512, 8, 64),
        descriptor(3, CacheType::Unified, 8192, 12, 64),
    ]
}

fn zen_l1() -> L1CacheInfo {
    L1CacheInfo { icache_size: 32, icache_line_size: 64, dcache_size: 48, dcache_line_size: 32 }
}

fn zen_l2_l3() -> L2L3CacheInfo {
    L2L3CacheInfo {
        l2cache_size: 512,
        l2cache_line_size: 64,
        l3cache_size: 16,
        l3cache_line_size: 128,
    }
}

/// A processor of the AMD Zen family, with an enumeration that disagrees with
/// its fixed fields.
fn zen_with(
    extended_family: u8,
    l1_cache: Option<L1CacheInfo>,
    l2_l3_cache: Option<L2L3CacheInfo>,
) -> Provider {
    Provider::Recorded(CpuReport {
        vendor: Some(String::from("AuthenticAMD")),
        family: family(0xF, extended_family),
        cache_parameters: Some(vec![
            descriptor(1, CacheType::Data, 1, 1, 1),
            descriptor(1, CacheType::Instruction, 1, 1, 2),
            descriptor(2, CacheType::Unified, 1, 1, 3),
            descriptor(3, CacheType::Unified, 1, 1, 4),
            descriptor(4, CacheType::Unified, 1, 1, 5),
        ]),
        l1_cache,
        l2_l3_cache,
    })
}

fn zen() -> Provider {
    zen_with(0x9, Some(zen_l1()), Some(zen_l2_l3()))
}

#[test]
fn generic_strategy_answers_with_the_smallest_of_several_caches() {
    let provider = intel(vec![
        descriptor(2, CacheType::Unified, 64, 8, 64),
        descriptor(2, CacheType::Unified, 32, 4, 64),
    ]);
    assert_eq!(provider.cache_size(2, CacheType::Unified), Some(8192));
    assert_eq!(generic_cache_size(&provider, 2, CacheType::Unified), Some(8192));
    assert_eq!(provider.l2_cache_size(), Some(8192));
}

#[test]
fn generic_strategy_smallest_does_not_depend_on_the_order() {
    let provider = intel(vec![
        descriptor(2, CacheType::Unified, 32, 4, 64),
        descriptor(2, CacheType::Unified, 64, 8, 64),
        descriptor(2, CacheType::Unified, 48, 4, 64),
    ]);
    assert_eq!(provider.cache_size(2, CacheType::Unified), Some(8192));
}

#[test]
fn zen_l2_comes_from_the_fixed_field_times_1024() {
    let provider = zen();
    assert_eq!(provider.cache_size(2, CacheType::Unified), Some(524288));
    assert_eq!(amd_cache_size(&provider, 2, CacheType::Unified), Some(524288));
    assert_eq!(provider.l2_cache_size(), Some(524288));
    // the enumeration of the same report would have said 3
    assert_eq!(generic_cache_size(&provider, 2, CacheType::Unified), Some(3));
}

#[test]
fn zen_answers_without_any_enumeration() {
    let provider = Provider::Recorded(CpuReport {
        vendor: Some(String::from("AuthenticAMD")),
        family: family(0xF, 0x9),
        cache_parameters: None,
        l1_cache: Some(zen_l1()),
        l2_l3_cache: Some(zen_l2_l3()),
    });
    assert_eq!(provider.cache_size(2, CacheType::Unified), Some(512 * 1024));
    assert_eq!(provider.cache_line_size(2, CacheType::Unified), Some(64));
}

#[test]
fn zen_l1_data_reads_the_data_field_not_the_instruction_field() {
    let provider = zen();
    assert_eq!(provider.cache_size(1, CacheType::Data), Some(48 * 1024));
    assert_eq!(provider.cache_size(1, CacheType::Data), Some(49152));
    assert_eq!(provider.cache_size(1, CacheType::Instruction), Some(32 * 1024));
    assert_eq!(provider.l1_cache_size(), Some(49152));
}

#[test]
fn zen_l3_is_the_size_field_times_1024() {
    let provider = zen();
    assert_eq!(provider.cache_size(3, CacheType::Unified), Some(16384));
    assert_eq!(provider.l3_cache_size(), Some(16384));
}

#[test]
fn zen_line_sizes_are_the_fields_as_they_are() {
    let provider = zen();
    assert_eq!(provider.cache_line_size(1, CacheType::Instruction), Some(64));
    assert_eq!(provider.cache_line_size(1, CacheType::Data), Some(32));
    assert_eq!(provider.cache_line_size(2, CacheType::Unified), Some(64));
    assert_eq!(provider.cache_line_size(3, CacheType::Unified), Some(128));
    assert_eq!(amd_cache_line_size(&provider, 3, CacheType::Unified), Some(128));
    assert_eq!(provider.l1_cache_line_size(), Some(32));
    assert_eq!(provider.l2_cache_line_size(), Some(64));
    assert_eq!(provider.l3_cache_line_size(), Some(128));
}

#[test]
fn zen_has_no_answer_outside_its_four_places() {
    let provider = zen();
    for level in 0..=u8::MAX {
        for cache_type in ALL_TYPES {
            let has_place = matches!(
                (level, cache_type),
                (1, CacheType::Instruction)
                    | (1, CacheType::Data)
                    | (2, CacheType::Unified)
                    | (3, CacheType::Unified)
            );
            assert_eq!(provider.cache_size(level, cache_type).is_some(), has_place);
            assert_eq!(provider.cache_line_size(level, cache_type).is_some(), has_place);
        }
    }
    // level 4 is in the enumeration of this report, and still not answered
    assert_eq!(provider.cache_size(4, CacheType::Unified), None);
    assert_eq!(provider.cache_size(1, CacheType::Unified), None);
    assert_eq!(provider.cache_size(2, CacheType::Data), None);
}

#[test]
fn zen_without_a_leaf_has_no_answer_from_it() {
    let no_l1 = zen_with(0x8, None, Some(zen_l2_l3()));
    assert_eq!(no_l1.cache_size(1, CacheType::Data), None);
    assert_eq!(no_l1.cache_line_size(1, CacheType::Instruction), None);
    assert_eq!(no_l1.cache_size(2, CacheType::Unified), Some(524288));
    let no_l2_l3 = zen_with(0x8, Some(zen_l1()), None);
    assert_eq!(no_l2_l3.cache_size(1, CacheType::Data), Some(49152));
    assert_eq!(no_l2_l3.cache_size(2, CacheType::Unified), None);
    assert_eq!(no_l2_l3.cache_line_size(3, CacheType::Unified), None);
}

#[test]
fn zen_largest_fields_fit() {
    let provider = zen_with(
        0xA,
        Some(L1CacheInfo {
            icache_size: 255,
            icache_line_size: 255,
            dcache_size: 0,
            dcache_line_size: 0,
        }),
        Some(L2L3CacheInfo {
            l2cache_size: 65535,
            l2cache_line_size: 255,
            l3cache_size: 0,
            l3cache_line_size: 1,
        }),
    );
    assert_eq!(provider.cache_size(1, CacheType::Instruction), Some(261120));
    assert_eq!(provider.cache_size(1, CacheType::Data), Some(0));
    assert_eq!(provider.cache_line_size(1, CacheType::Data), Some(0));
    assert_eq!(provider.cache_size(2, CacheType::Unified), Some(67107840));
    assert_eq!(provider.cache_size(3, CacheType::Unified), Some(0));
    assert_eq!(provider.cache_line_size(3, CacheType::Unified), Some(1));
}

#[test]
fn zen_family_is_base_f_and_extended_8_to_a() {
    for extended in 0..=u8::MAX {
        let provider = zen_with(extended, Some(zen_l1()), Some(zen_l2_l3()));
        let expected = if (0x8..=0xA).contains(&extended) { Some(524288) } else { Some(3) };
        assert_eq!(provider.cache_size(2, CacheType::Unified), expected);
    }
    for base in 0..=u8::MAX {
        let provider = Provider::Recorded(CpuReport {
            vendor: Some(String::from("AuthenticAMD")),
            family: family(base, 0x9),
            cache_parameters: Some(vec![descriptor(2, CacheType::Unified, 1, 1, 3)]),
            l1_cache: Some(zen_l1()),
            l2_l3_cache: Some(zen_l2_l3()),
        });
        let expected = if base == 0xF { Some(524288) } else { Some(3) };
        assert_eq!(provider.cache_size(2, CacheType::Unified), expected);
    }
}

#[test]
fn amd_is_zen_judges_the_family_fields() {
    assert_eq!(amd_is_zen(None), None);
    assert_eq!(amd_is_zen(family(0xF, 0x7)), Some(false));
    assert_eq!(amd_is_zen(family(0xF, 0x8)), Some(true));
    assert_eq!(amd_is_zen(family(0xF, 0x9)), Some(true));
    assert_eq!(amd_is_zen(family(0xF, 0xA)), Some(true));
    assert_eq!(amd_is_zen(family(0xF, 0xB)), Some(false));
    assert_eq!(amd_is_zen(family(0xE, 0x9)), Some(false));
    assert_eq!(amd_is_zen(family(0x6, 0x0)), Some(false));
}

#[test]
fn only_the_exact_amd_vendor_string_selects_the_fixed_fields() {
    assert!(is_amd_vendor(&String::from("AuthenticAMD")));
    assert!(!is_amd_vendor(&String::from("authenticamd")));
    assert!(!is_amd_vendor(&String::from("AuthenticAMD ")));
    assert!(!is_amd_vendor(&String::from("HygonGenuine")));
    assert!(!is_amd_vendor(&String::from("GenuineIntel")));
    assert!(!is_amd_vendor(&String::new()));
    for vendor in ["HygonGenuine", "GenuineIntel", "AuthenticAMD ", ""] {
        let provider = Provider::Recorded(CpuReport {
            vendor: Some(String::from(vendor)),
            family: family(0xF, 0x9),
            cache_parameters: Some(vec![descriptor(2, CacheType::Unified, 1, 1, 3)]),
            l1_cache: Some(zen_l1()),
            l2_l3_cache: Some(zen_l2_l3()),
        });
        assert_eq!(provider.cache_size(2, CacheType::Unified), Some(3));
        assert_eq!(provider.cache_line_size(2, CacheType::Unified), Some(3));
    }
}

#[test]
fn amd_without_family_fields_is_asked_through_the_enumeration() {
    let provider = Provider::Recorded(CpuReport {
        vendor: Some(String::from("AuthenticAMD")),
        family: None,
        cache_parameters: Some(vec![descriptor(2, CacheType::Unified, 1024, 8, 64)]),
        l1_cache: Some(zen_l1()),
        l2_l3_cache: Some(zen_l2_l3()),
    });
    assert_eq!(provider.cache_size(2, CacheType::Unified), Some(524288));
    assert_eq!(provider.cache_size(1, CacheType::Data), None);
}

#[test]
fn classify_reads_the_family_only_under_the_amd_vendor() {
    let amd = classify(&zen()).unwrap();
    assert_eq!(amd.vendor, "AuthenticAMD");
    assert_eq!(amd.family, family(0xF, 0x9));
    assert!(amd.is_amd_zen_family());
    let other = classify(&intel(desktop_descriptors())).unwrap();
    assert_eq!(other.vendor, "GenuineIntel");
    assert_eq!(other.family, None);
    assert!(!other.is_amd_zen_family());
    assert!(classify(&Provider::Unsupported).is_none());
    assert!(classify(&Provider::Recorded(CpuReport::absent())).is_none());
}

#[test]
fn identity_is_zen_only_with_vendor_and_family_together() {
    let identity = |vendor: &str, family: Option<FamilyInfo>| VendorIdentity {
        vendor: String::from(vendor),
        family,
    };
    assert!(identity("AuthenticAMD", family(0xF, 0x8)).is_amd_zen_family());
    assert!(!identity("AuthenticAMD", family(0xF, 0x7)).is_amd_zen_family());
    assert!(!identity("AuthenticAMD", None).is_amd_zen_family());
    assert!(!identity("GenuineIntel", family(0xF, 0x8)).is_amd_zen_family());
}

#[test]
fn no_vendor_string_means_no_answer() {
    let provider = Provider::Recorded(CpuReport {
        vendor: None,
        family: family(0xF, 0x9),
        cache_parameters: Some(desktop_descriptors()),
        l1_cache: Some(zen_l1()),
        l2_l3_cache: Some(zen_l2_l3()),
    });
    for level in 0..=4 {
        for cache_type in ALL_TYPES {
            assert_eq!(provider.cache_size(level, cache_type), None);
            assert_eq!(provider.cache_line_size(level, cache_type), None);
        }
    }
}

#[test]
fn a_cache_that_is_not_reported_has_no_answer() {
    let provider = intel(vec![
        descriptor(1, CacheType::Data, 64, 8, 64),
        descriptor(1, CacheType::Instruction, 64, 8, 64),
        descriptor(2, CacheType::Unified, 512, 8, 64),
    ]);
    // no third level
    assert_eq!(provider.cache_size(3, CacheType::Unified), None);
    assert_eq!(provider.cache_line_size(3, CacheType::Unified), None);
    assert_eq!(provider.l3_cache_size(), None);
    assert_eq!(provider.l3_cache_line_size(), None);
    // a unified cache does not answer for data
    assert_eq!(provider.cache_size(2, CacheType::Data), None);
    assert_eq!(provider.cache_line_size(2, CacheType::Data), None);
    assert_eq!(provider.cache_size(1, CacheType::Unified), None);
    assert_eq!(provider.cache_size(0, CacheType::Data), None);
    // no enumeration at all
    let silent = Provider::Recorded(CpuReport {
        vendor: Some(String::from("GenuineIntel")),
        family: None,
        cache_parameters: None,
        l1_cache: Some(zen_l1()),
        l2_l3_cache: Some(zen_l2_l3()),
    });
    assert_eq!(silent.cache_size(1, CacheType::Data), None);
    assert_eq!(silent.cache_line_size(1, CacheType::Data), None);
    // an empty enumeration
    let empty = intel(Vec::new());
    assert_eq!(empty.cache_size(1, CacheType::Data), None);
    assert_eq!(empty.cache_line_size(1, CacheType::Data), None);
}

#[test]
fn generic_sizes_are_sets_times_ways_times_line_size() {
    let provider = intel(desktop_descriptors());
    assert_eq!(provider.cache_size(1, CacheType::Data), Some(32768));
    assert_eq!(provider.cache_size(1, CacheType::Instruction), Some(32768));
    assert_eq!(provider.cache_size(2, CacheType::Unified), Some(262144));
    assert_eq!(provider.cache_size(3, CacheType::Unified), Some(6291456));
    assert_eq!(provider.cache_line_size(1, CacheType::Data), Some(64));
    assert_eq!(provider.cache_line_size(3, CacheType::Unified), Some(64));
}

#[test]
fn generic_line_size_is_the_smallest_of_several_caches() {
    let descriptors = vec![
        descriptor(2, CacheType::Unified, 64, 8, 128),
        descriptor(2, CacheType::Unified, 4096, 16, 32),
        descriptor(2, CacheType::Unified, 32, 4, 64),
        descriptor(2, CacheType::Data, 1, 1, 1),
        descriptor(3, CacheType::Unified, 1, 1, 2),
    ];
    assert_eq!(smallest_line_size(&descriptors, 2, CacheType::Unified), Some(32));
    assert_eq!(smallest_total_size(&descriptors, 2, CacheType::Unified), Some(8192));
    let provider = intel(descriptors);
    assert_eq!(provider.cache_line_size(2, CacheType::Unified), Some(32));
    assert_eq!(generic_cache_line_size(&provider, 2, CacheType::Unified), Some(32));
    // size and line size may come from different caches
    assert_eq!(provider.cache_size(2, CacheType::Unified), Some(8192));
}

#[test]
fn a_size_that_usize_cannot_hold_is_no_answer() {
    let huge = descriptor(3, CacheType::Unified, usize::MAX, 2, 64);
    assert_eq!(smallest_total_size(&vec![huge], 3, CacheType::Unified), None);
    assert_eq!(smallest_line_size(&vec![huge], 3, CacheType::Unified), Some(64));
    let late = descriptor(3, CacheType::Unified, usize::MAX / 2 + 1, 1, 2);
    assert_eq!(smallest_total_size(&vec![late], 3, CacheType::Unified), None);
    let largest = descriptor(3, CacheType::Unified, usize::MAX, 1, 1);
    assert_eq!(smallest_total_size(&vec![largest], 3, CacheType::Unified), Some(usize::MAX));
    // beside one that fits, the one that fits is the smallest
    let small = descriptor(3, CacheType::Unified, 8192, 12, 64);
    assert_eq!(smallest_total_size(&vec![huge, small], 3, CacheType::Unified), Some(6291456));
    assert_eq!(smallest_total_size(&vec![small, huge], 3, CacheType::Unified), Some(6291456));
    let provider = intel(vec![huge, late]);
    assert_eq!(provider.cache_size(3, CacheType::Unified), None);
    assert_eq!(provider.cache_line_size(3, CacheType::Unified), Some(2));
}

#[test]
fn a_factor_of_zero_gives_size_zero() {
    let no_sets = descriptor(1, CacheType::Data, 0, usize::MAX, usize::MAX);
    assert_eq!(smallest_total_size(&vec![no_sets], 1, CacheType::Data), Some(0));
    let no_ways = descriptor(1, CacheType::Data, usize::MAX, 0, usize::MAX);
    assert_eq!(smallest_total_size(&vec![no_ways], 1, CacheType::Data), Some(0));
    let no_line = descriptor(1, CacheType::Data, usize::MAX, usize::MAX, 0);
    assert_eq!(smallest_total_size(&vec![no_line], 1, CacheType::Data), Some(0));
    assert_eq!(smallest_line_size(&vec![no_line], 1, CacheType::Data), Some(0));
}

#[test]
fn recorded_sentinel_types_match_only_themselves() {
    let provider = intel(vec![
        descriptor(1, CacheType::Reserved, 2, 2, 2),
        descriptor(1, CacheType::Null, 3, 3, 3),
    ]);
    assert_eq!(provider.cache_size(1, CacheType::Reserved), Some(8));
    assert_eq!(provider.cache_size(1, CacheType::Null), Some(27));
    assert_eq!(provider.cache_size(1, CacheType::Data), None);
}

#[test]
fn size_is_at_least_line_size() {
    let providers = [
        intel(desktop_descriptors()),
        intel(vec![
            descriptor(2, CacheType::Unified, 64, 8, 128),
            descriptor(2, CacheType::Unified, 1, 1, 32),
            descriptor(1, CacheType::Data, 1, 1, 4096),
        ]),
        zen(),
    ];
    for provider in &providers {
        for level in 0..=4 {
            for cache_type in ALL_TYPES {
                let size = provider.cache_size(level, cache_type);
                let line_size = provider.cache_line_size(level, cache_type);
                if let (Some(size), Some(line_size)) = (size, line_size) {
                    assert!(size >= line_size);
                }
            }
        }
    }
    // one way and one set: the size is the line size
    let single = intel(vec![descriptor(1, CacheType::Data, 1, 1, 64)]);
    assert_eq!(single.cache_size(1, CacheType::Data), single.cache_line_size(1, CacheType::Data));
}

#[test]
fn zen_size_field_of_zero_is_below_its_line_size() {
    let provider = zen_with(
        0x9,
        Some(L1CacheInfo {
            icache_size: 32,
            icache_line_size: 64,
            dcache_size: 0,
            dcache_line_size: 64,
        }),
        None,
    );
    assert_eq!(provider.cache_size(1, CacheType::Data), Some(0));
    assert_eq!(provider.cache_line_size(1, CacheType::Data), Some(64));
}

#[test]
fn bindings_are_the_queries_with_fixed_arguments() {
    let providers = [
        intel(desktop_descriptors()),
        intel(vec![descriptor(1, CacheType::Unified, 64, 8, 64)]),
        zen(),
        zen_with(0x7, Some(zen_l1()), Some(zen_l2_l3())),
        Provider::Recorded(CpuReport::absent()),
        Provider::Unsupported,
    ];
    for provider in &providers {
        assert_eq!(provider.l1_cache_size(), provider.cache_size(1, CacheType::Data));
        assert_eq!(provider.l1_cache_line_size(), provider.cache_line_size(1, CacheType::Data));
        assert_eq!(provider.l2_cache_size(), provider.cache_size(2, CacheType::Unified));
        assert_eq!(provider.l2_cache_line_size(), provider.cache_line_size(2, CacheType::Unified));
        assert_eq!(provider.l3_cache_size(), provider.cache_size(3, CacheType::Unified));
        assert_eq!(provider.l3_cache_line_size(), provider.cache_line_size(3, CacheType::Unified));
    }
    assert_eq!(providers[0].l1_cache_size(), Some(32768));
    assert_eq!(providers[0].l1_cache_line_size(), Some(64));
    assert_eq!(providers[0].l2_cache_size(), Some(262144));
    assert_eq!(providers[0].l3_cache_size(), Some(6291456));
    // a unified first level is not the first-level data cache
    assert_eq!(providers[1].l1_cache_size(), None);
}

#[test]
fn repeated_queries_give_the_same_answer() {
    for provider in [intel(desktop_descriptors()), zen()] {
        for level in 0..=4 {
            for cache_type in ALL_TYPES {
                let first = provider.cache_size(level, cache_type);
                let first_line = provider.cache_line_size(level, cache_type);
                for _ in 0..3 {
                    assert_eq!(provider.cache_size(level, cache_type), first);
                    assert_eq!(provider.cache_line_size(level, cache_type), first_line);
                }
            }
        }
    }
}

#[test]
fn unsupported_provider_answers_none_to_every_query() {
    for provider in [Provider::Unsupported, Provider::Recorded(CpuReport::absent())] {
        for level in 0..=u8::MAX {
            for cache_type in ALL_TYPES {
                assert_eq!(provider.cache_size(level, cache_type), None);
                assert_eq!(provider.cache_line_size(level, cache_type), None);
                assert_eq!(generic_cache_size(&provider, level, cache_type), None);
                assert_eq!(amd_cache_size(&provider, level, cache_type), None);
            }
        }
        assert_eq!(provider.l1_cache_size(), None);
        assert_eq!(provider.l1_cache_line_size(), None);
        assert_eq!(provider.l2_cache_size(), None);
        assert_eq!(provider.l2_cache_line_size(), None);
        assert_eq!(provider.l3_cache_size(), None);
        assert_eq!(provider.l3_cache_line_size(), None);
        assert_eq!(provider.vendor(), None);
        assert_eq!(provider.family(), None);
        assert_eq!(provider.cache_descriptors(), None);
        assert_eq!(provider.l1_cache_info(), None);
        assert_eq!(provider.l2_l3_cache_info(), None);
    }
}

#[test]
fn recorded_provider_reports_what_was_recorded() {
    let provider = zen();
    assert_eq!(provider.vendor(), Some(String::from("AuthenticAMD")));
    assert_eq!(provider.family(), family(0xF, 0x9));
    assert_eq!(provider.cache_descriptors().map(|d| d.len()), Some(5));
    assert_eq!(provider.l1_cache_info(), Some(zen_l1()));
    assert_eq!(provider.l2_l3_cache_info(), Some(zen_l2_l3()));
    let descriptors = desktop_descriptors();
    assert_eq!(intel(descriptors.clone()).cache_descriptors(), Some(descriptors));
}

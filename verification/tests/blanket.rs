//! The queries of a host that cannot be asked.

use cache_size::blanket::{
    cache_line_size, cache_size, l1_cache_line_size, l1_cache_size, l2_cache_line_size,
    l2_cache_size, l3_cache_line_size, l3_cache_size,
};
use cache_size::CacheType;

#[test]
fn test_l1_cache_size() {
    assert_eq!(l1_cache_size(), None);
}

#[test]
fn test_l1_cache_line_size() {
    assert_eq!(l1_cache_line_size(), None)
}

#[test]
fn test_l2_cache_size() {
    assert_eq!(l2_cache_size(), None);
}

#[test]
fn test_l2_cache_line_size() {
    assert_eq!(l2_cache_line_size(), None);
}

#[test]
fn test_l3_cache_size() {
    assert_eq!(l3_cache_size(), None);
}

#[test]
fn test_l3_cache_line_size() {
    assert_eq!(l3_cache_line_size(), None);
}

#[test]
fn blanket_queries_answer_none_for_every_level_and_type() {
    let types = [
        CacheType::Null,
        CacheType::Data,
        CacheType::Instruction,
        CacheType::Unified,
        CacheType::Reserved,
    ];
    for level in 0..=u8::MAX {
        for cache_type in types {
            assert_eq!(cache_size(level, cache_type), None);
            assert_eq!(cache_line_size(level, cache_type), None);
        }
    }
}

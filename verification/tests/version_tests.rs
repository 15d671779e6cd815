use std::cmp::Ordering;

use self_updater::version::{decimal_string, SimpleTag};

#[test]
fn decimal_rendering_is_exact() {
    assert_eq!(decimal_string(0), "0");
    assert_eq!(decimal_string(7), "7");
    assert_eq!(decimal_string(100), "100");
    assert_eq!(decimal_string(u64::MAX), "18446744073709551615");
}

#[test]
fn parse_plain_triple() {
    let t = SimpleTag::from_str("1.2.0").unwrap();
    assert_eq!(t.major, 1);
    assert_eq!(t.minor, 2);
    assert_eq!(t.patch, 0);
}

#[test]
fn parse_prefixed_and_suffixed_tag() {
    let t = SimpleTag::from_str("v1.2.3-pre").unwrap();
    assert_eq!(t.major, 1);
    assert_eq!(t.minor, 2);
    assert_eq!(t.patch, 3);
}

#[test]
fn parse_takes_first_occurrence() {
    let t = SimpleTag::from_str("release-12.34.56 (build 7.8.9)").unwrap();
    assert_eq!(t.major, 12);
    assert_eq!(t.minor, 34);
    assert_eq!(t.patch, 56);
}

#[test]
fn parse_multi_digit_and_leading_zeros() {
    let t = SimpleTag::from_str("v01.002.30").unwrap();
    assert_eq!(t.major, 1);
    assert_eq!(t.minor, 2);
    assert_eq!(t.patch, 30);
}

#[test]
fn parse_rejects_strings_without_triple() {
    assert!(SimpleTag::from_str("").is_none());
    assert!(SimpleTag::from_str("no numbers here").is_none());
    assert!(SimpleTag::from_str("1.2").is_none());
    assert!(SimpleTag::from_str("1..2").is_none());
    assert!(SimpleTag::from_str("1.2.x").is_none());
}

#[test]
fn parse_skips_past_incomplete_candidates() {
    let t = SimpleTag::from_str("1.2x3.4.5").unwrap();
    assert_eq!(t.major, 3);
    assert_eq!(t.minor, 4);
    assert_eq!(t.patch, 5);
}

#[test]
fn parse_rejects_component_overflow() {
    assert!(SimpleTag::from_str("99999999999999999999.1.2").is_none());
    let max = u64::MAX.to_string();
    let tag = format!("{}.0.1", max);
    let t = SimpleTag::from_str(&tag).unwrap();
    assert_eq!(t.major, u64::MAX);
    assert_eq!(t.minor, 0);
    assert_eq!(t.patch, 1);
}

#[test]
fn compare_is_numeric_not_lexicographic() {
    assert_eq!(SimpleTag::simple_compare("1.2.0", "1.10.0"), Ordering::Less);
    assert_eq!(SimpleTag::simple_compare("1.10.0", "1.2.0"), Ordering::Greater);
}

#[test]
fn compare_orders_each_component() {
    assert_eq!(SimpleTag::simple_compare("2.0.0", "1.9.9"), Ordering::Greater);
    assert_eq!(SimpleTag::simple_compare("1.2.3", "1.2.4"), Ordering::Less);
    assert_eq!(SimpleTag::simple_compare("v1.2.3", "1.2.3-pre"), Ordering::Equal);
}

#[test]
fn compare_unparseable_is_equal() {
    assert_eq!(SimpleTag::simple_compare("garbage", "rubbish"), Ordering::Equal);
    assert_eq!(SimpleTag::simple_compare("garbage", "1.2.3"), Ordering::Equal);
    assert_eq!(SimpleTag::simple_compare("1.2.3", ""), Ordering::Equal);
}

use prediction_markets::base::{expiry_at, InstanceId, MICROS_PER_SECOND};
use prediction_markets::hello::{HelloStateData, Operation as HelloOperation};
use prediction_markets::text::{chars_string, contains_ci, replace_chars, str_chars, u64_string};

fn chars(x: &str) -> Vec<char> {
    x.chars().collect()
}

#[test]
fn str_chars_round_trip() {
    let v = str_chars("héllo wörld");
    assert_eq!(v, chars("héllo wörld"));
    assert_eq!(chars_string(&v), "héllo wörld");
    assert_eq!(chars_string(&str_chars("")), "");
}

#[test]
fn decimal_rendering() {
    assert_eq!(u64_string(0), "0");
    assert_eq!(u64_string(7), "7");
    assert_eq!(u64_string(12345), "12345");
    assert_eq!(u64_string(u64::MAX), "18446744073709551615");
}

#[test]
fn case_insensitive_containment() {
    assert!(contains_ci("Who wins the ELECTION?", "election"));
    assert!(contains_ci("eLeCtIoN", "ELECTION"));
    assert!(!contains_ci("erection?", "election"));
    assert!(contains_ci("anything", ""));
    assert!(contains_ci("", ""));
    assert!(!contains_ci("", "a"));
}

#[test]
fn replacement_is_leftmost_non_overlapping() {
    let out = replace_chars(&chars("aaa"), &chars("aa"), &chars("b"));
    assert_eq!(out, chars("ba"));
    let out = replace_chars(&chars("x{k}y{k}"), &chars("{k}"), &chars("v"));
    assert_eq!(out, chars("xvyv"));
    let out = replace_chars(&chars("abc"), &chars("zzz"), &chars("q"));
    assert_eq!(out, chars("abc"));
    let out = replace_chars(&chars("ab"), &chars("ab"), &chars(""));
    assert_eq!(out, chars(""));
}

#[test]
fn expiry_saturates() {
    assert_eq!(expiry_at(0, 3600), 3600 * MICROS_PER_SECOND);
    assert_eq!(expiry_at(u64::MAX - 5, 10), u64::MAX);
    assert_eq!(expiry_at(0, u64::MAX), u64::MAX);
}

#[test]
fn hello_counter_saturates() {
    let mut h = HelloStateData::new();
    assert_eq!(h.value, 0);
    h.execute_operation(HelloOperation::Increment { by: 5 });
    h.execute_operation(HelloOperation::Increment { by: 7 });
    assert_eq!(h.value, 12);
    h.execute_operation(HelloOperation::Increment { by: u64::MAX });
    assert_eq!(h.value, u64::MAX);
}

#[test]
fn instance_ids_compare_by_value() {
    assert_eq!(InstanceId(3), InstanceId(3));
    assert_ne!(InstanceId(3), InstanceId(4));
}

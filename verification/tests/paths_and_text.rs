use sandbox::paths::join_path;
use sandbox::text::{decimal_string, signed_decimal_string};

#[test]
fn join_relative_onto_root() {
    assert_eq!(join_path("/", "usr"), "/usr");
}

#[test]
fn join_relative_adds_one_separator() {
    assert_eq!(join_path("/tmp/newroot", "etc"), "/tmp/newroot/etc");
    assert_eq!(join_path("/tmp/newroot/", "etc"), "/tmp/newroot/etc");
}

#[test]
fn join_absolute_replaces_base() {
    assert_eq!(join_path("/tmp/newroot", "/proc"), "/proc");
    assert_eq!(join_path("/", "/dev"), "/dev");
}

#[test]
fn join_onto_empty_base() {
    assert_eq!(join_path("", "usr"), "usr");
}

#[test]
fn join_empty_relative_keeps_a_separator() {
    assert_eq!(join_path("/oldroot", ""), "/oldroot/");
}

#[test]
fn join_several_components() {
    assert_eq!(join_path("/", "run/user/1000/"), "/run/user/1000/");
    assert_eq!(join_path("/run/user/1000/", "pulse"), "/run/user/1000/pulse");
}

#[test]
fn decimal_of_small_and_large_numbers() {
    assert_eq!(decimal_string(0), "0");
    assert_eq!(decimal_string(7), "7");
    assert_eq!(decimal_string(10), "10");
    assert_eq!(decimal_string(1234567890), "1234567890");
    assert_eq!(decimal_string(u64::MAX), u64::MAX.to_string());
}

#[test]
fn signed_decimal_of_pids() {
    assert_eq!(signed_decimal_string(4242), "4242");
    assert_eq!(signed_decimal_string(0), "0");
    assert_eq!(signed_decimal_string(-5), "-5");
    assert_eq!(signed_decimal_string(i32::MIN), "-2147483648");
    assert_eq!(signed_decimal_string(i32::MAX), "2147483647");
}

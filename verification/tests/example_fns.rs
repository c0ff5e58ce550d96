use dwarffi::classify::{classify_symbol, has_prefix, is_excluded};
use dwarffi::example::{divmod_example, when_is_now};

#[test]
fn divmod_positive() {
    let r = divmod_example(7, 2);
    assert_eq!(r.d, 3);
    assert_eq!(r.m, 1);
}

#[test]
fn divmod_negative_dividend() {
    let r = divmod_example(-7, 2);
    assert_eq!(r.d, -3);
    assert_eq!(r.m, -1);
}

#[test]
fn divmod_negative_divisor() {
    let r = divmod_example(7, -2);
    assert_eq!(r.d, -3);
    assert_eq!(r.m, 1);
}

#[test]
fn divmod_exact() {
    let r = divmod_example(-8, -4);
    assert_eq!(r.d, 2);
    assert_eq!(r.m, 0);
}

#[test]
fn when_is_now_gives_text() {
    assert!(!when_is_now().is_empty());
}

#[test]
fn prefix_checks() {
    assert!(has_prefix("core::fmt::write", "core::"));
    assert!(!has_prefix("corette", "core::"));
    assert!(!has_prefix("co", "core::"));
    assert!(has_prefix("x", ""));
}

#[test]
fn exclusion_table() {
    assert!(is_excluded("core::fmt::write"));
    assert!(is_excluded("alloc::alloc::alloc"));
    assert!(is_excluded("rust_begin_unwind"));
    assert!(is_excluded("__rust_alloc"));
    assert!(is_excluded("<T as Trait>::method"));
    assert!(!is_excluded("mylib::hello"));
}

#[test]
fn classifier_demangles_and_filters() {
    // A runtime-internal symbol: excluded after demangling, even though the
    // raw text does not start with any listed prefix.
    assert_eq!(classify_symbol("_ZN4core3fmt5writeE"), None);
    // A user symbol: included, with the demangled name returned.
    assert_eq!(
        classify_symbol("_ZN5mylib5helloE"),
        Some(String::from("mylib::hello"))
    );
    // An unmangled name passes through the demangler unchanged.
    assert_eq!(
        classify_symbol("plain_name"),
        Some(String::from("plain_name"))
    );
}

use std::collections::hash_map::DefaultHasher;
use std::hash::Hash;
use std::hash::Hasher;

use position::Position;
use position::text::decimal_string;

fn hash_of(p: &Position) -> u64 {
    let mut h = DefaultHasher::new();
    p.hash(&mut h);
    h.finish()
}

#[test]
fn accessors_round_trip() {
    let p = Position::new("my::module", "src/lib.rs", 5, 19);
    assert_eq!(p.file(), "src/lib.rs");
    assert_eq!(p.module(), "my::module");
    assert_eq!(p.line(), 5);
    assert_eq!(p.column(), 19);
}

#[test]
fn accessors_accept_zero() {
    let p = Position::new("", "", 0, 0);
    assert_eq!(p.file(), "");
    assert_eq!(p.module(), "");
    assert_eq!(p.line(), 0);
    assert_eq!(p.column(), 0);
}

#[test]
fn rendering_omits_module_path() {
    let p = Position::new("m", "src/lib.rs", 5, 19);
    assert_eq!(p.display_string(), "src/lib.rs:5:19");
}

#[test]
fn rendering_zero_coordinates() {
    let p = Position::new("m", "f", 0, 0);
    assert_eq!(p.display_string(), "f:0:0");
}

#[test]
fn rendering_largest_coordinates() {
    let p = Position::new("m", "f", u32::MAX, u32::MAX);
    assert_eq!(p.display_string(), "f:4294967295:4294967295");
}

#[test]
fn decimal_rendering_exact_values() {
    assert_eq!(decimal_string(0), "0");
    assert_eq!(decimal_string(9), "9");
    assert_eq!(decimal_string(10), "10");
    assert_eq!(decimal_string(100), "100");
    assert_eq!(decimal_string(4294967295), "4294967295");
}

#[test]
fn equal_fields_compare_equal_and_hash_identically() {
    let a = Position::new("m", "f", 3, 7);
    let b = Position::new("m", "f", 3, 7);
    assert_eq!(a, b);
    assert_eq!(hash_of(&a), hash_of(&b));
}

#[test]
fn any_single_differing_field_breaks_equality() {
    let p = Position::new("m", "f", 3, 7);
    assert_ne!(p, Position::new("n", "f", 3, 7));
    assert_ne!(p, Position::new("m", "g", 3, 7));
    assert_ne!(p, Position::new("m", "f", 4, 7));
    assert_ne!(p, Position::new("m", "f", 3, 8));
}

#[test]
fn ordering_is_lexicographic() {
    assert!(Position::new("a", "f", 1, 1) < Position::new("a", "f", 1, 2));
    assert!(Position::new("a", "f", 1, 2) < Position::new("a", "f", 2, 1));
    assert!(Position::new("a", "f", 2, 1) < Position::new("b", "f", 1, 1));
    assert!(Position::new("a", "e", 9, 9) < Position::new("a", "f", 1, 1));
    assert!(Position::new("b", "f", 1, 1) > Position::new("a", "z", 9, 9));
    assert!(Position::new("a", "f", 1, 1) <= Position::new("a", "f", 1, 1));
}

#[test]
fn ordering_compares_characters_by_code_point() {
    assert!(Position::new("e", "f", 1, 1) < Position::new("é", "f", 1, 1));
    assert!(Position::new("m", "a", 1, 1) < Position::new("m", "ab", 1, 1));
}

#[test]
fn sorting_uses_the_field_order() {
    let mut v = vec![
        Position::new("b", "f", 1, 1),
        Position::new("a", "f", 2, 1),
        Position::new("a", "f", 1, 2),
        Position::new("a", "f", 1, 1),
    ];
    v.sort();
    assert_eq!(
        v,
        vec![
            Position::new("a", "f", 1, 1),
            Position::new("a", "f", 1, 2),
            Position::new("a", "f", 2, 1),
            Position::new("b", "f", 1, 1),
        ]
    );
}

#[test]
fn fmt_error_prefixes_the_position() {
    let p = Position::new("m", "src/lib.rs", 5, 19);
    assert_eq!(p.fmt_error("boom"), "src/lib.rs:5:19: boom");
}

#[test]
fn copies_are_equal_and_independent() {
    let a = Position::new("m", "f", 1, 2);
    let b = a;
    assert_eq!(a, b);
    assert_eq!(a.display_string(), "f:1:2");
    assert_eq!(b.display_string(), "f:1:2");
}

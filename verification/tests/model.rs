use modelz::{Indices, Sampler, WrappingMode};

#[test]
fn indices_in_bounds_holds_every_index_against_the_count() {
    assert!(Indices::U8(vec![0, 1, 2]).in_bounds(3));
    assert!(!Indices::U8(vec![0, 3, 2]).in_bounds(3));
    assert!(Indices::U16(vec![65535]).in_bounds(65536));
    assert!(!Indices::U16(vec![0, 1, 65535]).in_bounds(65535));
    assert!(Indices::U32(vec![7, 7, 7]).in_bounds(8));
    assert!(!Indices::U32(vec![7, 8]).in_bounds(8));
    assert!(!Indices::U32(vec![u32::MAX]).in_bounds(10));
}

#[test]
fn indices_in_bounds_of_an_empty_buffer() {
    assert!(Indices::U8(vec![]).in_bounds(0));
    assert!(Indices::U16(vec![]).in_bounds(0));
    assert!(Indices::U32(vec![]).in_bounds(0));
    assert!(!Indices::U8(vec![0]).in_bounds(0));
}

#[test]
fn indices_clone_keeps_width_and_content() {
    assert_eq!(Indices::U8(vec![1, 2]).clone(), Indices::U8(vec![1, 2]));
    assert_eq!(Indices::U16(vec![300]).clone(), Indices::U16(vec![300]));
    assert_eq!(Indices::U32(vec![70000, 1]).clone(), Indices::U32(vec![70000, 1]));
}

#[test]
fn sampler_default_repeats_on_both_axes() {
    let s = Sampler::default();
    assert_eq!(s.mag_filter, None);
    assert_eq!(s.min_filter, None);
    assert_eq!(s.wrap_s, WrappingMode::Repeat);
    assert_eq!(s.wrap_t, WrappingMode::Repeat);
    assert_eq!(s.name, None);
    assert_eq!(WrappingMode::default(), WrappingMode::Repeat);
}

use snog::{Screen, UNIT_SCALE};

#[test]
fn unit_scale_is_the_number_one() {
    assert_eq!(UNIT_SCALE, 1.0f64.to_bits());
    assert_eq!(f64::from_bits(UNIT_SCALE), 1.0);
}

#[test]
fn new_keeps_size_and_scale() {
    let s = Screen::new(1044, 800, 2.0f64.to_bits());
    assert_eq!(s.physical_size(), (1044, 800));
    assert_eq!(f64::from_bits(s.scale()), 2.0);
}

#[test]
fn unscaled_has_scale_one() {
    let s = Screen::unscaled(640, 480);
    assert_eq!(s.physical_size(), (640, 480));
    assert_eq!(s.scale(), UNIT_SCALE);
    assert_eq!(s, Screen::new(640, 480, 1.0f64.to_bits()));
}

#[test]
fn resized_keeps_the_scale() {
    let s = Screen::new(100, 50, 1.5f64.to_bits()).resized(300, 200);
    assert_eq!(s.physical_size(), (300, 200));
    assert_eq!(f64::from_bits(s.scale()), 1.5);
}

#[test]
fn has_size_compares_both_dimensions() {
    let s = Screen::unscaled(100, 50);
    assert!(s.has_size(100, 50));
    assert!(!s.has_size(100, 51));
    assert!(!s.has_size(99, 50));
    assert!(!s.has_size(50, 100));
}

#[test]
fn zero_and_largest_sizes_are_kept() {
    let s = Screen::unscaled(0, u32::MAX);
    assert_eq!(s.physical_size(), (0, u32::MAX));
    assert!(s.has_size(0, u32::MAX));
}

#[test]
fn logical_size_follows_from_what_a_screen_keeps() {
    let s = Screen::new(1000, 500, 2.0f64.to_bits());
    let (w, h) = s.physical_size();
    let scale = f64::from_bits(s.scale());
    assert_eq!((f64::from(w) / scale, f64::from(h) / scale), (500.0, 250.0));
}

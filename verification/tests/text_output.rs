use rust_raytracer::decimal::{decimal_string, push_decimal};
use rust_raytracer::ppm::ppm_text;

#[test]
fn decimal_of_small_and_large_numbers() {
    assert_eq!(decimal_string(0), "0");
    assert_eq!(decimal_string(7), "7");
    assert_eq!(decimal_string(10), "10");
    assert_eq!(decimal_string(512), "512");
    assert_eq!(decimal_string(1600), "1600");
    assert_eq!(decimal_string(u32::MAX), "4294967295");
}

#[test]
fn decimal_matches_format_for_many_values() {
    let mut n: u32 = 0;
    while n < 100_000 {
        assert_eq!(decimal_string(n), format!("{}", n));
        n += 7;
    }
}

#[test]
fn push_decimal_appends() {
    let mut s = String::from("spp=");
    push_decimal(&mut s, 42);
    push_decimal(&mut s, 0);
    assert_eq!(s, "spp=420");
}

#[test]
fn ppm_text_of_two_pixels() {
    let pixels = vec![(0u8, 128u8, 255u8), (1u8, 2u8, 3u8)];
    assert_eq!(ppm_text(&pixels, 2, 1), "P3\n2 1\n255\n0 128 255\n1 2 3\n");
}

#[test]
fn ppm_text_of_no_pixels_is_the_header() {
    let pixels: Vec<(u8, u8, u8)> = Vec::new();
    assert_eq!(ppm_text(&pixels, 1200, 675), "P3\n1200 675\n255\n");
}

#[test]
fn ppm_text_line_count() {
    let pixels: Vec<(u8, u8, u8)> = (0..12u32).map(|k| (k as u8, 255 - k as u8, 9)).collect();
    let text = ppm_text(&pixels, 4, 3);
    assert_eq!(text.lines().count(), 3 + 12);
    assert_eq!(text.lines().nth(3), Some("0 255 9"));
    assert_eq!(text.lines().last(), Some("11 244 9"));
}

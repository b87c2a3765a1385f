use rust_raytracer::raster::{upscale, write_rgba, Renderer};

#[test]
fn renderer_keeps_its_size() {
    let r = Renderer::new(1600, 900);
    assert_eq!(r.width, 1600);
    assert_eq!(r.height, 900);
    assert_eq!(r.pixel_count(), 1_440_000);
}

#[test]
fn pixel_zero_is_top_left() {
    let r = Renderer::new(4, 3);
    assert_eq!(r.pixel_coords(0), (0, 2));
    assert_eq!(r.pixel_coords(3), (3, 2));
    assert_eq!(r.pixel_coords(5), (1, 1));
    assert_eq!(r.pixel_coords(11), (3, 0));
}

#[test]
fn pixel_index_formula() {
    let r = Renderer::new(4, 3);
    assert_eq!(r.pixel_index(0, 2), 0);
    assert_eq!(r.pixel_index(1, 1), 5);
    assert_eq!(r.pixel_index(3, 0), 11);
}

#[test]
fn pixel_numbering_is_a_bijection() {
    let r = Renderer::new(7, 5);
    let mut seen = vec![false; 35];
    for idx in 0..r.pixel_count() {
        let (i, j) = r.pixel_coords(idx);
        assert!(i < 7 && j < 5);
        assert_eq!(r.pixel_index(i, j), idx);
        assert!(!seen[idx as usize]);
        seen[idx as usize] = true;
    }
    assert!(seen.iter().all(|b| *b));
}

#[test]
fn single_column_raster() {
    let r = Renderer::new(1, 3);
    assert_eq!(r.pixel_coords(0), (0, 2));
    assert_eq!(r.pixel_coords(2), (0, 0));
}

#[test]
fn rgba_layout_is_opaque_and_leaves_the_tail() {
    let mut out = vec![7u8; 10];
    write_rgba(&mut out, &[(1, 2, 3), (4, 5, 6)]);
    assert_eq!(out, vec![1, 2, 3, 255, 4, 5, 6, 255, 7, 7]);
}

#[test]
fn rgba_of_no_pixels_changes_nothing() {
    let mut out = vec![9u8; 4];
    write_rgba(&mut out, &[]);
    assert_eq!(out, vec![9, 9, 9, 9]);
}

#[test]
fn preview_raster_halves_each_dimension() {
    let r = Renderer::new(1600, 900);
    let low = r.preview(2);
    assert_eq!((low.width, low.height), (800, 450));
    let odd = Renderer::new(5, 3).preview(2);
    assert_eq!((odd.width, odd.height), (2, 1));
}

#[test]
fn upscale_source_blocks() {
    let r = Renderer::new(4, 4);
    // row 0 of the full image reads row 0 of the preview
    assert_eq!(r.upscale_source(2, 0), 0);
    assert_eq!(r.upscale_source(2, 1), 0);
    assert_eq!(r.upscale_source(2, 2), 1);
    assert_eq!(r.upscale_source(2, 5), 0);
    assert_eq!(r.upscale_source(2, 10), 3);
    assert_eq!(r.upscale_source(2, 15), 3);
}

#[test]
fn upscale_copies_blocks() {
    let r = Renderer::new(4, 2);
    let low = vec!['a', 'b'];
    let full = upscale(&r, 2, &low);
    assert_eq!(full, vec!['a', 'a', 'b', 'b', 'a', 'a', 'b', 'b']);
}

#[test]
fn upscale_clamps_odd_edges() {
    let r = Renderer::new(5, 3);
    let low = vec![10u32, 20u32];
    let full = upscale(&r, 2, &low);
    assert_eq!(full.len(), 15);
    assert_eq!(&full[0..5], &[10, 10, 20, 20, 20]);
    assert_eq!(&full[10..15], &[10, 10, 20, 20, 20]);
}

#[test]
fn upscale_by_one_is_identity() {
    let r = Renderer::new(3, 2);
    let low = vec![1, 2, 3, 4, 5, 6];
    assert_eq!(upscale(&r, 1, &low), low);
}

//! The pixel raster of a frame: how a linear pixel index maps to image
//! coordinates, and how per-pixel colour bytes are laid out as RGBA.

use vstd::prelude::*;
use vstd::arithmetic::div_mod::{lemma_fundamental_div_mod, lemma_fundamental_div_mod_converse};
use vstd::arithmetic::mul::{lemma_mul_inequality, lemma_mul_is_distributive_add_other_way};

verus! {

/// The raster a frame is rendered into: `width` columns and `height` rows.
///
/// Pixels are numbered row by row from the top row down; the image
/// coordinate `j` counts rows from the bottom, so pixel `0` is the top-left
/// corner `(0, height - 1)`.
pub struct Renderer {
    pub width: u32,
    pub height: u32,
}

impl Renderer {
    /// The number of pixels of the raster.
    pub open spec fn pixel_total(self) -> int {
        self.width * self.height
    }

    /// The column and row (counted from the bottom) of pixel `idx`.
    pub open spec fn coords_of(self, idx: int) -> (int, int) {
        (idx % (self.width as int), self.height - 1 - idx / (self.width as int))
    }

    /// The linear index of the pixel at column `i` and row `j` (counted from
    /// the bottom).
    pub open spec fn index_of(self, i: int, j: int) -> int {
        (self.height - 1 - j) * self.width + i
    }

    /// A raster of `width` by `height` pixels.
    pub fn new(width: u32, height: u32) -> (r: Self)
        ensures
            r.width == width,
            r.height == height,
    {
        Renderer { width, height }
    }

    /// The number of pixels, `width * height`, computed in `u32` as the
    /// frame loop does (the product must fit).
    pub fn pixel_count(&self) -> (n: u32)
        requires
            self.pixel_total() <= u32::MAX,
        ensures
            n == self.pixel_total(),
    {
        self.width * self.height
    }

    /// The image coordinates `(i, j)` of pixel `idx`: `i = idx % width` and
    /// `j = height - 1 - idx / width`.
    pub fn pixel_coords(&self, idx: u32) -> (ij: (u32, u32))
        requires
            idx < self.pixel_total(),
        ensures
            (ij.0 as int, ij.1 as int) == self.coords_of(idx as int),
            ij.0 < self.width,
            ij.1 < self.height,
    {
        proof {
            lemma_index_coords_roundtrip(*self, idx as int);
        }
        let i: u32 = idx % self.width;
        let j: u32 = self.height - 1 - idx / self.width;
        (i, j)
    }

    /// The linear index of the pixel at `(i, j)`: `(height - 1 - j) * width + i`.
    pub fn pixel_index(&self, i: u32, j: u32) -> (idx: u32)
        requires
            i < self.width,
            j < self.height,
            self.pixel_total() <= u32::MAX,
        ensures
            idx == self.index_of(i as int, j as int),
            idx < self.pixel_total(),
    {
        proof {
            lemma_coords_index_roundtrip(*self, i as int, j as int);
        }
        let row: u32 = self.height - 1 - j;
        proof {
            lemma_mul_inequality(row as int, (self.height - 1) as int, self.width as int);
            lemma_mul_is_distributive_add_other_way(self.width as int, (self.height - 1) as int, 1);
        }
        row * self.width + i
    }
}

impl Renderer {
    /// The low-resolution raster of a preview frame: each dimension divided
    /// by `scale`.
    pub open spec fn preview_of(self, scale: u32) -> Renderer {
        Renderer { width: self.width / scale, height: self.height / scale }
    }

    /// The low-resolution pixel whose colour the full-resolution pixel `idx`
    /// takes when a preview frame is enlarged by nearest-neighbour
    /// sampling: column `x / scale` and row `y / scale` (rows counted from
    /// the top), clamped to the low-resolution raster.
    pub open spec fn upscale_source_of(self, scale: u32, idx: int) -> int {
        let low = self.preview_of(scale);
        let x: int = idx % (self.width as int);
        let y: int = idx / (self.width as int);
        let lx: int = if x / (scale as int) < low.width { x / (scale as int) } else { low.width - 1 };
        let ly: int = if y / (scale as int) < low.height { y / (scale as int) } else { low.height - 1 };
        ly * low.width + lx
    }

    /// The raster of a preview frame rendered at `1 / scale` of the
    /// resolution in each dimension.
    pub fn preview(&self, scale: u32) -> (low: Renderer)
        requires
            scale >= 1,
        ensures
            low == self.preview_of(scale),
    {
        Renderer { width: self.width / scale, height: self.height / scale }
    }

    /// The index of the low-resolution pixel that full-resolution pixel
    /// `idx` copies in a nearest-neighbour enlargement by `scale`.
    pub fn upscale_source(&self, scale: u32, idx: u32) -> (src: u32)
        requires
            1 <= scale <= self.width,
            scale <= self.height,
            idx < self.pixel_total(),
            self.pixel_total() <= u32::MAX,
        ensures
            src == self.upscale_source_of(scale, idx as int),
            src < self.preview_of(scale).pixel_total(),
    {
        proof {
            lemma_upscale_source_in_range(*self, scale, idx as int);
        }
        let low = self.preview(scale);
        let x: u32 = idx % self.width;
        let y: u32 = idx / self.width;
        let lx: u32 = if x / scale < low.width { x / scale } else { low.width - 1 };
        let ly: u32 = if y / scale < low.height { y / scale } else { low.height - 1 };
        proof {
            lemma_mul_inequality(ly as int, (low.height - 1) as int, low.width as int);
            lemma_mul_is_distributive_add_other_way(low.width as int, (low.height - 1) as int, 1);
            assert(low.width * low.height == low.height * low.width) by (nonlinear_arith);
        }
        ly * low.width + lx
    }
}

/// Enlarges a preview frame to the full raster by nearest-neighbour
/// sampling: full-resolution pixel `k` takes the value of low-resolution
/// pixel `upscale_source_of(scale, k)`.
pub fn upscale<T: Copy>(full: &Renderer, scale: u32, low_pixels: &Vec<T>) -> (out: Vec<T>)
    requires
        1 <= scale <= full.width,
        scale <= full.height,
        full.pixel_total() <= u32::MAX,
        low_pixels@.len() == full.preview_of(scale).pixel_total(),
    ensures
        out@.len() == full.pixel_total(),
        forall|k: int|
            0 <= k < full.pixel_total() ==> #[trigger] out@[k] == low_pixels@[full.upscale_source_of(
                scale,
                k,
            )],
{
    let n: u32 = full.pixel_count();
    let mut out: Vec<T> = Vec::new();
    let mut k: u32 = 0;
    while k < n
        invariant
            n == full.pixel_total(),
            1 <= scale <= full.width,
            scale <= full.height,
            full.pixel_total() <= u32::MAX,
            low_pixels@.len() == full.preview_of(scale).pixel_total(),
            0 <= k <= n,
            out@.len() == k,
            forall|m: int|
                0 <= m < k ==> #[trigger] out@[m] == low_pixels@[full.upscale_source_of(scale, m)],
        decreases n - k,
    {
        let src: u32 = full.upscale_source(scale, k);
        out.push(low_pixels[src as usize]);
        k = k + 1;
    }
    out
}

/// Nearest-neighbour enlargement copies, for full-resolution pixel
/// `(x, y)` (row `y` counted from the top), the preview pixel at row
/// `y / scale` and column `x / scale`, or the last preview row or column
/// where these fall past the preview's edge: the source row is the smaller
/// of `y / scale` and `height / scale - 1`, and likewise for the column.
pub proof fn lemma_upscale_source_position(full: Renderer, scale: u32, idx: int)
    requires
        1 <= scale <= full.width,
        scale <= full.height,
        0 <= idx < full.pixel_total(),
    ensures
        ({
            let lw = (full.width / scale) as int;
            let lh = (full.height / scale) as int;
            let y = idx / (full.width as int);
            let x = idx % (full.width as int);
            let src = full.upscale_source_of(scale, idx);
            &&& 0 <= src / lw < lh
            &&& src / lw <= y / (scale as int)
            &&& src / lw == y / (scale as int) || src / lw == lh - 1
            &&& y / (scale as int) >= lh ==> src / lw == lh - 1
            &&& 0 <= src % lw < lw
            &&& src % lw <= x / (scale as int)
            &&& src % lw == x / (scale as int) || src % lw == lw - 1
            &&& x / (scale as int) >= lw ==> src % lw == lw - 1
        }),
{
    lemma_upscale_source_in_range(full, scale, idx);
    let low = full.preview_of(scale);
    let lw = low.width as int;
    let lh = low.height as int;
    let w = full.width as int;
    let s = scale as int;
    let x = idx % w;
    let y = idx / w;
    vstd::arithmetic::div_mod::lemma_mod_pos_bound(idx, w);
    vstd::arithmetic::div_mod::lemma_div_pos_is_pos(idx, w);
    vstd::arithmetic::div_mod::lemma_div_pos_is_pos(x, s);
    vstd::arithmetic::div_mod::lemma_div_pos_is_pos(y, s);
    let lx = if x / s < lw { x / s } else { lw - 1 };
    let ly = if y / s < lh { y / s } else { lh - 1 };
    assert(full.upscale_source_of(scale, idx) == ly * lw + lx);
    lemma_fundamental_div_mod_converse(ly * lw + lx, lw, ly, lx);
}

/// Enlargement keeps the order of rows: a lower full-resolution row never
/// reads a higher preview row, and the bottom row of the frame reads the
/// bottom row of the preview.
pub proof fn lemma_upscale_rows_monotone(full: Renderer, scale: u32, i1: int, i2: int)
    requires
        1 <= scale <= full.width,
        scale <= full.height,
        0 <= i1 < full.pixel_total(),
        0 <= i2 < full.pixel_total(),
        i1 / (full.width as int) <= i2 / (full.width as int),
    ensures
        full.upscale_source_of(scale, i1) / ((full.width / scale) as int)
            <= full.upscale_source_of(scale, i2) / ((full.width / scale) as int),
        i2 / (full.width as int) == full.height - 1 ==> full.upscale_source_of(scale, i2) / ((
        full.width / scale) as int) == (full.height / scale) as int - 1,
{
    lemma_upscale_source_position(full, scale, i1);
    lemma_upscale_source_position(full, scale, i2);
    let s = scale as int;
    let y1 = i1 / (full.width as int);
    let y2 = i2 / (full.width as int);
    vstd::arithmetic::div_mod::lemma_div_is_ordered(y1, y2, s);
    let h = full.height as int;
    if y2 == h - 1 {
        // (h - 1) / s >= h / s - 1
        vstd::arithmetic::div_mod::lemma_fundamental_div_mod(h, s);
        vstd::arithmetic::div_mod::lemma_fundamental_div_mod(h - 1, s);
        vstd::arithmetic::div_mod::lemma_mod_pos_bound(h, s);
        vstd::arithmetic::div_mod::lemma_mod_pos_bound(h - 1, s);
        assert((h - 1) / s >= h / s - 1) by (nonlinear_arith)
            requires
                s >= 1,
                h == s * (h / s) + h % s,
                h - 1 == s * ((h - 1) / s) + (h - 1) % s,
                0 <= h % s < s,
                0 <= (h - 1) % s < s,
        ;
    }
}

/// Nearest-neighbour enlargement only ever reads pixels of the preview
/// frame: every full-resolution pixel has a source inside the
/// low-resolution raster.
pub proof fn lemma_upscale_source_in_range(full: Renderer, scale: u32, idx: int)
    requires
        1 <= scale <= full.width,
        scale <= full.height,
        0 <= idx < full.pixel_total(),
    ensures
        full.preview_of(scale).width >= 1,
        full.preview_of(scale).height >= 1,
        full.preview_of(scale).pixel_total() <= full.pixel_total(),
        0 <= full.upscale_source_of(scale, idx) < full.preview_of(scale).pixel_total(),
{
    let low = full.preview_of(scale);
    let w: int = full.width as int;
    let s: int = scale as int;
    assert(low.width >= 1) by {
        vstd::arithmetic::div_mod::lemma_div_non_zero(w, s);
    }
    assert(low.height >= 1) by {
        vstd::arithmetic::div_mod::lemma_div_non_zero(full.height as int, s);
    }
    let x: int = idx % w;
    let y: int = idx / w;
    assert(x >= 0 && y >= 0) by {
        vstd::arithmetic::div_mod::lemma_mod_pos_bound(idx, w);
        vstd::arithmetic::div_mod::lemma_div_pos_is_pos(idx, w);
    }
    assert(x / s >= 0 && y / s >= 0) by {
        vstd::arithmetic::div_mod::lemma_div_pos_is_pos(x, s);
        vstd::arithmetic::div_mod::lemma_div_pos_is_pos(y, s);
    }
    let lx: int = if x / s < low.width { x / s } else { low.width - 1 };
    let ly: int = if y / s < low.height { y / s } else { low.height - 1 };
    lemma_mul_inequality(ly, low.height - 1, low.width as int);
    assert((low.height - 1) * low.width + low.width == low.width * low.height) by (nonlinear_arith);
    assert(ly * low.width >= 0) by (nonlinear_arith)
        requires
            ly >= 0,
            low.width >= 0,
    ;
    let lw: int = low.width as int;
    let lh: int = low.height as int;
    let h: int = full.height as int;
    assert(lw <= w) by {
        vstd::arithmetic::div_mod::lemma_div_is_ordered_by_denominator(w, 1, s);
    }
    assert(lh <= h) by {
        vstd::arithmetic::div_mod::lemma_div_is_ordered_by_denominator(h, 1, s);
    }
    assert(lw * lh <= w * h) by (nonlinear_arith)
        requires
            0 <= lw <= w,
            0 <= lh <= h,
    ;
}

/// Every pixel index of the raster names a pixel inside it, and the index of
/// that pixel is the index it came from.
pub proof fn lemma_index_coords_roundtrip(r: Renderer, idx: int)
    requires
        0 <= idx < r.pixel_total(),
    ensures
        0 <= r.coords_of(idx).0 < r.width,
        0 <= r.coords_of(idx).1 < r.height,
        r.index_of(r.coords_of(idx).0, r.coords_of(idx).1) == idx,
{
    let w: int = r.width as int;
    let h: int = r.height as int;
    assert(w > 0) by {
        if w == 0 {
            assert(w * h == 0) by (nonlinear_arith)
                requires
                    w == 0,
            ;
        }
    }
    lemma_fundamental_div_mod(idx, w);
    let q: int = idx / w;
    assert(q >= 0);
    assert(q < h) by {
        if q >= h {
            lemma_mul_inequality(h, q, w);
            assert(w * q == q * w) by (nonlinear_arith);
            assert(w * h == h * w) by (nonlinear_arith);
        }
    }
    assert(r.index_of(r.coords_of(idx).0, r.coords_of(idx).1) == q * w + idx % w);
    assert(q * w == w * q) by (nonlinear_arith);
}

/// Every pixel of the raster has an index inside it, and that index leads
/// back to the same pixel.
pub proof fn lemma_coords_index_roundtrip(r: Renderer, i: int, j: int)
    requires
        0 <= i < r.width,
        0 <= j < r.height,
    ensures
        0 <= r.index_of(i, j) < r.pixel_total(),
        r.coords_of(r.index_of(i, j)) == (i, j),
{
    let w: int = r.width as int;
    let h: int = r.height as int;
    let row: int = h - 1 - j;
    let idx: int = row * w + i;
    lemma_fundamental_div_mod_converse(idx, w, row, i);
    lemma_mul_inequality(row, h - 1, w);
    assert((h - 1) * w + w == h * w) by (nonlinear_arith);
    assert(row * w >= 0) by (nonlinear_arith)
        requires
            row >= 0,
            w >= 0,
    ;
}

/// The RGBA bytes of pixel `k` stand at `4k .. 4k + 4` of the frame.
pub open spec fn rgba_at(out: Seq<u8>, k: int, rgb: (u8, u8, u8)) -> bool {
    &&& out[4 * k] == rgb.0
    &&& out[4 * k + 1] == rgb.1
    &&& out[4 * k + 2] == rgb.2
    &&& out[4 * k + 3] == 255
}

/// Writes the colour bytes of each pixel into the frame as `[R, G, B, A]`
/// with an opaque alpha of 255; bytes past the last pixel are left alone.
pub fn write_rgba(out: &mut [u8], rgb: &[(u8, u8, u8)])
    requires
        4 * rgb@.len() <= old(out)@.len(),
    ensures
        final(out)@.len() == old(out)@.len(),
        forall|k: int| 0 <= k < rgb@.len() ==> #[trigger] rgba_at(final(out)@, k, rgb@[k]),
        forall|b: int| 4 * rgb@.len() <= b < old(out)@.len() ==> final(out)@[b] == old(out)@[b],
{
    let n: usize = rgb.len();
    let len: usize = out.len();
    let mut k: usize = 0;
    while k < n
        invariant
            n == rgb@.len(),
            len == out@.len(),
            0 <= k <= n,
            4 * n <= old(out)@.len(),
            out@.len() == old(out)@.len(),
            forall|m: int| 0 <= m < k ==> #[trigger] rgba_at(out@, m, rgb@[m]),
            forall|b: int| 4 * k <= b < old(out)@.len() ==> out@[b] == old(out)@[b],
        decreases n - k,
    {
        let ghost before = out@;
        let (r, g, b): (u8, u8, u8) = rgb[k];
        let base: usize = 4 * k;
        out[base] = r;
        out[base + 1] = g;
        out[base + 2] = b;
        out[base + 3] = 255;
        assert forall|m: int| 0 <= m < k + 1 implies #[trigger] rgba_at(out@, m, rgb@[m]) by {
            if m < k {
                assert(rgba_at(before, m, rgb@[m]));
            }
        }
        k = k + 1;
    }
}

} // verus!

use vstd::prelude::*;
use crate::imaging::{height_of, rgb_image_of, width_of};
use crate::raster::{Raster, pixel_at};

verus! {

/// Width of the fractal canvas, in pixels.
pub const FRACTAL_WIDTH: u32 = 800;

/// Height of the fractal canvas, in pixels.
pub const FRACTAL_HEIGHT: u32 = 800;

/// Number of pixels on the fractal canvas.
pub const FRACTAL_PIXELS: usize = 640000;

/// Largest escape count: the iteration stops there even if the orbit stays
/// bounded.
pub const MAX_ITERATIONS: u8 = 255;

/// Background gradient: `floor(0.3 * i)`, saturated to the byte range.
pub open spec fn gradient(i: int) -> int {
    if 3 * i / 10 > 255 {
        255
    } else {
        3 * i / 10
    }
}

/// The colour of the fractal pixel in column `x`, row `y`, whose orbit
/// escaped after `green` iterations. The row drives red, as it drives the
/// real part of the sample point; the column drives blue.
pub open spec fn fractal_pixel(x: int, y: int, green: u8) -> (u8, u8, u8) {
    (gradient(y) as u8, green, gradient(x) as u8)
}

/// The bytes of the fractal canvas for the given escape counts, one count per
/// pixel in row-major order.
pub open spec fn fractal_data(counts: Seq<u8>) -> Seq<u8> {
    Seq::new(
        3 * counts.len(),
        |k: int|
            {
                let p = k / 3;
                let px = fractal_pixel(p % (FRACTAL_WIDTH as int), p / (FRACTAL_WIDTH as int), counts[p]);
                if k % 3 == 0 {
                    px.0
                } else if k % 3 == 1 {
                    px.1
                } else {
                    px.2
                }
            },
    )
}

/// The gradient channel for column or row index `i`: `floor(0.3 * i)`, with
/// the cast to a byte made an explicit saturation.
pub fn gradient_channel(i: u32) -> (r: u8)
    ensures
        r as int == gradient(i as int),
{
    let v: u64 = (i as u64) * 3 / 10;
    if v > 255 {
        255
    } else {
        v as u8
    }
}

/// Lays out the fractal canvas: red is the row gradient, blue the column
/// gradient, and green the escape count of the pixel, taken from `counts` in
/// row-major order.
pub fn fractal_raster(counts: &Vec<u8>) -> (r: Raster)
    requires
        counts@.len() == FRACTAL_PIXELS,
    ensures
        r.width == FRACTAL_WIDTH,
        r.height == FRACTAL_HEIGHT,
        r.wf(),
        r.data@ == fractal_data(counts@),
        forall|x: int, y: int|
            0 <= x < FRACTAL_WIDTH && 0 <= y < FRACTAL_HEIGHT ==> #[trigger] r.pixel(x, y)
                == fractal_pixel(x, y, counts@[y * FRACTAL_WIDTH + x]),
{
    let mut data: Vec<u8> = Vec::new();
    let mut p: usize = 0;
    while p < FRACTAL_PIXELS
        invariant
            counts@.len() == FRACTAL_PIXELS,
            p <= FRACTAL_PIXELS,
            data@.len() == 3 * p,
            forall|k: int| 0 <= k < 3 * p ==> #[trigger] data@[k] == fractal_data(counts@)[k],
        decreases FRACTAL_PIXELS - p,
    {
        let x = (p % 800) as u32;
        let y = (p / 800) as u32;
        let red = gradient_channel(y);
        let blue = gradient_channel(x);
        data.push(red);
        data.push(counts[p]);
        data.push(blue);
        assert forall|k: int| 3 * p <= k < 3 * p + 3 implies #[trigger] data@[k]
            == fractal_data(counts@)[k] by {
            assert(k / 3 == p);
        }
        p = p + 1;
    }
    let r = Raster { width: FRACTAL_WIDTH, height: FRACTAL_HEIGHT, data };
    assert(r.data@ =~= fractal_data(counts@));
    assert forall|x: int, y: int|
        0 <= x < FRACTAL_WIDTH && 0 <= y < FRACTAL_HEIGHT implies #[trigger] r.pixel(x, y)
            == fractal_pixel(x, y, counts@[y * FRACTAL_WIDTH + x]) by {
        let q = y * 800 + x;
        assert(0 <= q < 640000) by (nonlinear_arith)
            requires 0 <= x < 800, 0 <= y < 800, q == y * 800 + x;
        assert(q % 800 == x && q / 800 == y) by (nonlinear_arith)
            requires 0 <= x < 800, 0 <= y < 800, q == y * 800 + x;
        assert((3 * q) / 3 == q && (3 * q + 1) / 3 == q && (3 * q + 2) / 3 == q);
        assert((3 * q) % 3 == 0 && (3 * q + 1) % 3 == 1 && (3 * q + 2) % 3 == 2);
    }
    r
}

/// The fractal image for the given escape counts: 800 by 800 RGB pixels laid
/// out by `fractal_raster`.
pub fn render_fractal(counts: &Vec<u8>) -> (r: image::DynamicImage)
    requires
        counts@.len() == FRACTAL_PIXELS,
    ensures
        r == rgb_image_of(FRACTAL_WIDTH, FRACTAL_HEIGHT, fractal_data(counts@)),
        width_of(r) == FRACTAL_WIDTH,
        height_of(r) == FRACTAL_HEIGHT,
{
    fractal_raster(counts).into_image()
}

/// Rendering is deterministic: two canvases agree on every pixel whose escape
/// count agrees, and their red and blue channels agree whatever the counts.
pub proof fn fractal_render_deterministic(a: Seq<u8>, b: Seq<u8>)
    requires
        a.len() == FRACTAL_PIXELS,
        b.len() == FRACTAL_PIXELS,
    ensures
        forall|p: int|
            0 <= p < FRACTAL_PIXELS && a[p] == b[p] ==> #[trigger] pixel_at(fractal_data(a), p)
                == pixel_at(fractal_data(b), p),
        forall|k: int|
            0 <= k < 3 * FRACTAL_PIXELS && k % 3 != 1 ==> #[trigger] fractal_data(a)[k]
                == fractal_data(b)[k],
{
    assert forall|p: int|
        0 <= p < FRACTAL_PIXELS && a[p] == b[p] implies #[trigger] pixel_at(fractal_data(a), p)
            == pixel_at(fractal_data(b), p) by {
        assert((3 * p) / 3 == p && (3 * p + 1) / 3 == p && (3 * p + 2) / 3 == p);
        assert((3 * p) % 3 == 0 && (3 * p + 1) % 3 == 1 && (3 * p + 2) % 3 == 2);
    }
}

/// Every red and blue channel of the canvas stays within `0..=239`, and 239
/// (`floor(0.3 * 799)`) is reached on the last row and column.
pub proof fn fractal_channel_bounds(counts: Seq<u8>, x: int, y: int)
    requires
        counts.len() == FRACTAL_PIXELS,
        0 <= x < FRACTAL_WIDTH,
        0 <= y < FRACTAL_HEIGHT,
    ensures
        ({
            let px = fractal_pixel(x, y, counts[y * FRACTAL_WIDTH + x]);
            &&& px.0 <= 239
            &&& px.2 <= 239
            &&& y == 799 ==> px.0 == 239
            &&& x == 799 ==> px.2 == 239
        }),
{
}

} // verus!

use vstd::prelude::*;
use crate::params::Color;

verus! {

/// The `(red, green, blue)` triple stored for pixel number `p` of a row-major
/// RGB byte buffer.
pub open spec fn pixel_at(data: Seq<u8>, p: int) -> (u8, u8, u8) {
    (data[3 * p], data[3 * p + 1], data[3 * p + 2])
}

/// Channel `c` (0 red, 1 green, 2 blue) of `color`.
spec fn channel_of(color: Color, c: int) -> u8 {
    if c == 0 {
        color.red
    } else if c == 1 {
        color.green
    } else {
        color.blue
    }
}

/// An RGB image held as plain bytes: `width * height` pixels in row-major
/// order, three bytes (red, green, blue) each.
pub struct Raster {
    pub width: u32,
    pub height: u32,
    pub data: Vec<u8>,
}

impl Raster {
    /// The buffer holds exactly three bytes for each pixel.
    pub open spec fn wf(&self) -> bool {
        self.data@.len() == 3 * (self.width as int) * (self.height as int)
    }

    /// The pixel in column `x` and row `y`.
    pub open spec fn pixel(&self, x: int, y: int) -> (u8, u8, u8) {
        pixel_at(self.data@, y * self.width + x)
    }

    /// A `width` by `height` raster with every pixel set to `color`.
    pub fn solid(width: u32, height: u32, color: Color) -> (r: Raster)
        requires
            3 * (width as int) * (height as int) <= usize::MAX,
        ensures
            r.width == width,
            r.height == height,
            r.wf(),
            forall|p: int|
                0 <= p < width * height ==> #[trigger] pixel_at(r.data@, p) == (
                    color.red,
                    color.green,
                    color.blue,
                ),
    {
        assert(3 * ((width as int) * (height as int)) == 3 * (width as int) * (height as int))
            by (nonlinear_arith);
        let n: usize = (width as usize) * (height as usize);
        let mut data: Vec<u8> = Vec::new();
        let mut p: usize = 0;
        while p < n
            invariant
                n == width * height,
                3 * n <= usize::MAX,
                p <= n,
                data@.len() == 3 * p,
                forall|k: int| 0 <= k < 3 * p ==> #[trigger] data@[k] == channel_of(color, k % 3),
            decreases n - p,
        {
            data.push(color.red);
            data.push(color.green);
            data.push(color.blue);
            p = p + 1;
        }
        let r = Raster { width, height, data };
        assert forall|p: int| 0 <= p < width * height implies #[trigger] pixel_at(r.data@, p) == (
            color.red,
            color.green,
            color.blue,
        ) by {
            assert((3 * p) % 3 == 0 && (3 * p + 1) % 3 == 1 && (3 * p + 2) % 3 == 2);
        }
        r
    }
}

} // verus!

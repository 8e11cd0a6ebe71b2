use imgtool::{
    fractal_raster, gradient_channel, render_fractal, FRACTAL_HEIGHT, FRACTAL_PIXELS,
    FRACTAL_WIDTH,
};
use num_complex::Complex;

fn pixel(data: &[u8], width: usize, x: usize, y: usize) -> (u8, u8, u8) {
    let p = 3 * (y * width + x);
    (data[p], data[p + 1], data[p + 2])
}

#[test]
fn fractal_canvas_is_800_by_800() {
    let counts = vec![0u8; FRACTAL_PIXELS];
    let r = fractal_raster(&counts);
    assert_eq!(r.width, 800);
    assert_eq!(r.height, 800);
    assert_eq!(FRACTAL_WIDTH, 800);
    assert_eq!(FRACTAL_HEIGHT, 800);
    assert_eq!(r.data.len(), 3 * 800 * 800);
    let img = render_fractal(&counts);
    assert_eq!((img.width(), img.height()), (800, 800));
    assert_eq!(img.color(), image::ColorType::Rgb8);
}

#[test]
fn fractal_image_holds_the_canvas_bytes() {
    let counts: Vec<u8> = (0..FRACTAL_PIXELS).map(|p| (p % 7) as u8).collect();
    let r = fractal_raster(&counts);
    let img = render_fractal(&counts);
    assert_eq!(img.to_rgb8().into_raw(), r.data);
}

#[test]
fn fractal_render_is_deterministic() {
    let counts: Vec<u8> = (0..FRACTAL_PIXELS).map(|p| (p % 251) as u8).collect();
    let a = fractal_raster(&counts);
    let b = fractal_raster(&counts);
    assert_eq!(a.data, b.data);
}

#[test]
fn fractal_gradient_ignores_escape_counts() {
    let zeros = vec![0u8; FRACTAL_PIXELS];
    let full = vec![255u8; FRACTAL_PIXELS];
    let a = fractal_raster(&zeros);
    let b = fractal_raster(&full);
    for k in 0..a.data.len() {
        if k % 3 != 1 {
            assert_eq!(a.data[k], b.data[k]);
        }
    }
}

#[test]
fn fractal_origin_pixel() {
    // The sample point of the corner escapes at once: |-1.5 - 1.5i| > 2.
    let z = Complex::new(-1.5f32, -1.5f32);
    assert!(z.norm() > 2.0);
    let counts = vec![0u8; FRACTAL_PIXELS];
    let r = fractal_raster(&counts);
    assert_eq!(pixel(&r.data, 800, 0, 0), (0, 0, 0));
}

#[test]
fn fractal_pixel_channels_come_from_row_column_and_count() {
    let mut counts = vec![0u8; FRACTAL_PIXELS];
    counts[10 * 800 + 799] = 200;
    counts[799 * 800 + 20] = 17;
    let r = fractal_raster(&counts);
    assert_eq!(pixel(&r.data, 800, 799, 10), (3, 200, 239));
    assert_eq!(pixel(&r.data, 800, 20, 799), (239, 17, 6));
    assert_eq!(pixel(&r.data, 800, 799, 799), (239, 0, 239));
}

#[test]
fn fractal_channel_bounds_hold_on_every_pixel() {
    let counts = vec![255u8; FRACTAL_PIXELS];
    let r = fractal_raster(&counts);
    for y in 0..800usize {
        for x in 0..800usize {
            let (red, _green, blue) = pixel(&r.data, 800, x, y);
            assert!(red <= 239 && blue <= 239);
        }
    }
    assert_eq!(pixel(&r.data, 800, 0, 799).0, 239);
    assert_eq!(pixel(&r.data, 800, 799, 0).2, 239);
}

#[test]
fn gradient_channel_values() {
    assert_eq!(gradient_channel(0), 0);
    assert_eq!(gradient_channel(3), 0);
    assert_eq!(gradient_channel(4), 1);
    assert_eq!(gradient_channel(10), 3);
    assert_eq!(gradient_channel(255), 76);
    assert_eq!(gradient_channel(799), 239);
    assert_eq!(gradient_channel(850), 255);
    assert_eq!(gradient_channel(853), 255);
    assert_eq!(gradient_channel(u32::MAX), 255);
}

#[test]
fn gradient_matches_float_truncation_on_the_canvas() {
    for i in 0..800u32 {
        assert_eq!(gradient_channel(i), (0.3 * i as f32) as u8);
    }
}

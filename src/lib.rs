//! An image tool: a fractal renderer, a solid-colour generator, and the
//! argument parsing and image operations behind each subcommand.

mod command;
mod fractal;
mod imaging;
mod params;
mod raster;
mod text;

pub use command::{
    Command, GENERATED_SIZE, command_of, generated_raster, parse_command, same_text,
};
pub use fractal::{
    FRACTAL_HEIGHT, FRACTAL_PIXELS, FRACTAL_WIDTH, MAX_ITERATIONS, fractal_channel_bounds,
    fractal_data, fractal_pixel, fractal_raster, fractal_render_deterministic, gradient,
    gradient_channel, render_fractal,
};
pub use imaging::{
    Rotation, brighten, brightened_of, brightness_step, clipped_extent, crop, cropped_of,
    dimensions, float_channels_of, grayscale, grayscale_of, height_of, invert, inverted_of,
    rgb_image_of, rotate, rotated180_of, rotated270_of, rotated90_of, rotation_of, width_of,
};
pub use params::{
    Color, CropRegion, color_of, crop_region_of, low_byte, low_byte_of, parse_color,
    parse_crop_region,
};
pub use raster::{Raster, pixel_at};
pub use text::{
    digits_value, i32_of, is_digit, is_digits, parse_i32, parse_u32, signed_value, split_fields,
    split_spec, u32_of, unsigned_value,
};

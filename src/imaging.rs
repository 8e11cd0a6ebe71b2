use vstd::prelude::*;
use crate::params::CropRegion;
use crate::raster::Raster;

verus! {

#[verifier::external_type_specification]
#[verifier::external_body]
pub struct ExDynamicImage(image::DynamicImage);

/// The width of an image, in pixels.
pub uninterp spec fn width_of(img: image::DynamicImage) -> u32;

/// The height of an image, in pixels.
pub uninterp spec fn height_of(img: image::DynamicImage) -> u32;

/// The 8-bit RGB image whose pixels are `data`, row-major, three bytes each.
pub uninterp spec fn rgb_image_of(width: u32, height: u32, data: Seq<u8>) -> image::DynamicImage;

/// The image turned a quarter turn clockwise.
pub uninterp spec fn rotated90_of(img: image::DynamicImage) -> image::DynamicImage;

/// The image turned a half turn.
pub uninterp spec fn rotated180_of(img: image::DynamicImage) -> image::DynamicImage;

/// The image turned three quarter turns clockwise.
pub uninterp spec fn rotated270_of(img: image::DynamicImage) -> image::DynamicImage;

/// The part of the image inside the rectangle at `(x, y)` of the given size,
/// clipped to the image.
pub uninterp spec fn cropped_of(
    img: image::DynamicImage,
    x: u32,
    y: u32,
    width: u32,
    height: u32,
) -> image::DynamicImage;

/// The image with `value` added to every colour channel, saturating.
pub uninterp spec fn brightened_of(img: image::DynamicImage, value: i32) -> image::DynamicImage;

/// The image's luminance.
pub uninterp spec fn grayscale_of(img: image::DynamicImage) -> image::DynamicImage;

/// The image with every colour channel inverted.
pub uninterp spec fn inverted_of(img: image::DynamicImage) -> image::DynamicImage;

/// Whether the image stores its channels as 32-bit floats.
pub uninterp spec fn float_channels_of(img: image::DynamicImage) -> bool;

/// Relies on `image::DynamicImage::width`.
pub assume_specification[ image::DynamicImage::width ](img: &image::DynamicImage) -> (r: u32)
    ensures
        r == width_of(*img),
;

/// Relies on `image::DynamicImage::height`.
pub assume_specification[ image::DynamicImage::height ](img: &image::DynamicImage) -> (r: u32)
    ensures
        r == height_of(*img),
;

/// Relies on `image::ImageBuffer::from_raw` for 8-bit RGB pixels: it takes the
/// buffer as the image's pixels, at the given size, when it holds at least
/// three bytes for each of the `width * height` pixels (a product that
/// overflows counts as too many), and gives `None` otherwise.
#[verifier::external_body]
fn rgb_image_from_raw(width: u32, height: u32, data: Vec<u8>) -> (r: Option<image::DynamicImage>)
    ensures
        r is Some <==> 3 * (width as int) * (height as int) <= data@.len(),
        r is Some ==> r->0 == rgb_image_of(width, height, data@),
        r is Some ==> width_of(r->0) == width && height_of(r->0) == height,
{
    image::RgbImage::from_raw(width, height, data).map(image::DynamicImage::ImageRgb8)
}

/// Relies on `image::DynamicImage::rotate90`, which builds a buffer of the
/// swapped size.
#[verifier::external_body]
fn rotated_quarter(img: &image::DynamicImage) -> (r: image::DynamicImage)
    ensures
        r == rotated90_of(*img),
        width_of(r) == height_of(*img),
        height_of(r) == width_of(*img),
{
    img.rotate90()
}

/// Relies on `image::DynamicImage::rotate180`, which keeps the size.
#[verifier::external_body]
fn rotated_half(img: &image::DynamicImage) -> (r: image::DynamicImage)
    ensures
        r == rotated180_of(*img),
        width_of(r) == width_of(*img),
        height_of(r) == height_of(*img),
{
    img.rotate180()
}

/// Relies on `image::DynamicImage::rotate270`, which builds a buffer of the
/// swapped size.
#[verifier::external_body]
fn rotated_three_quarters(img: &image::DynamicImage) -> (r: image::DynamicImage)
    ensures
        r == rotated270_of(*img),
        width_of(r) == height_of(*img),
        height_of(r) == width_of(*img),
{
    img.rotate270()
}

/// Relies on `image::DynamicImage::crop_imm`, which clips the rectangle to the
/// image (`crop_dimms`) and copies that part out.
#[verifier::external_body]
fn cropped(img: &image::DynamicImage, x: u32, y: u32, width: u32, height: u32) -> (r:
    image::DynamicImage)
    ensures
        r == cropped_of(*img, x, y, width, height),
        width_of(r) == clipped_extent(width_of(*img), x, width),
        height_of(r) == clipped_extent(height_of(*img), y, height),
{
    img.crop_imm(x, y, width, height)
}

/// Relies on `image::DynamicImage::brighten`, which keeps the size. It adds
/// `value` to each channel in `i32`, so `value` is kept to a range where that
/// cannot overflow for integer channels, and float channels (whose cast to
/// `i32` may fail) are left out.
#[verifier::external_body]
fn brightened(img: &image::DynamicImage, value: i32) -> (r: image::DynamicImage)
    requires
        -65535 <= value <= 65535,
        !float_channels_of(*img),
    ensures
        r == brightened_of(*img, value),
        width_of(r) == width_of(*img),
        height_of(r) == height_of(*img),
{
    img.brighten(value)
}

/// Relies on `image::DynamicImage::color`: whether the colour type is
/// `Rgb32F` or `Rgba32F`.
#[verifier::external_body]
fn has_float_channels(img: &image::DynamicImage) -> (r: bool)
    ensures
        r == float_channels_of(*img),
{
    match img.color() {
        image::ColorType::Rgb32F => true,
        image::ColorType::Rgba32F => true,
        _ => false,
    }
}

/// Relies on `image::DynamicImage::grayscale`, which keeps the size.
#[verifier::external_body]
fn grayscaled(img: &image::DynamicImage) -> (r: image::DynamicImage)
    ensures
        r == grayscale_of(*img),
        width_of(r) == width_of(*img),
        height_of(r) == height_of(*img),
{
    img.grayscale()
}

/// Relies on `image::DynamicImage::invert`: every colour channel inverted in
/// place, the size kept.
#[verifier::external_body]
fn invert_in_place(img: &mut image::DynamicImage)
    ensures
        *final(img) == inverted_of(*old(img)),
        width_of(*final(img)) == width_of(*old(img)),
        height_of(*final(img)) == height_of(*old(img)),
{
    img.invert()
}

/// The extent of a crop along one axis: the rectangle starts at `start`
/// (clipped to the image) and keeps at most `extent` pixels of the `size`.
pub open spec fn clipped_extent(size: u32, start: u32, extent: u32) -> u32 {
    let s = if start < size {
        start
    } else {
        size
    };
    if extent < size - s {
        extent
    } else {
        (size - s) as u32
    }
}

/// A clockwise rotation by a whole number of quarter turns.
#[derive(Clone, Copy, Debug, PartialEq, Eq, Structural)]
pub enum Rotation {
    Quarter,
    Half,
    ThreeQuarters,
}

/// The rotation of `degrees` clockwise, for the three accepted angles.
pub open spec fn rotation_of(degrees: i32) -> Option<Rotation> {
    if degrees == 90 {
        Some(Rotation::Quarter)
    } else if degrees == 180 {
        Some(Rotation::Half)
    } else if degrees == 270 {
        Some(Rotation::ThreeQuarters)
    } else {
        None
    }
}

impl Rotation {
    /// The rotation for 90, 180 or 270 degrees; `None` for any other angle.
    pub fn from_degrees(degrees: i32) -> (r: Option<Rotation>)
        ensures
            r == rotation_of(degrees),
    {
        match degrees {
            90 => Some(Rotation::Quarter),
            180 => Some(Rotation::Half),
            270 => Some(Rotation::ThreeQuarters),
            _ => None,
        }
    }
}

impl Raster {
    /// The raster as an 8-bit RGB image of the same size and pixels.
    pub fn into_image(self) -> (r: image::DynamicImage)
        requires
            self.wf(),
        ensures
            r == rgb_image_of(self.width, self.height, self.data@),
            width_of(r) == self.width,
            height_of(r) == self.height,
    {
        rgb_image_from_raw(self.width, self.height, self.data).unwrap()
    }
}

/// The width and height of `img`.
pub fn dimensions(img: &image::DynamicImage) -> (r: (u32, u32))
    ensures
        r == (width_of(*img), height_of(*img)),
{
    (img.width(), img.height())
}

/// Turns `img` clockwise by `rotation`; a quarter or three-quarter turn swaps
/// width and height.
pub fn rotate(img: &image::DynamicImage, rotation: Rotation) -> (r: image::DynamicImage)
    ensures
        r == match rotation {
            Rotation::Quarter => rotated90_of(*img),
            Rotation::Half => rotated180_of(*img),
            Rotation::ThreeQuarters => rotated270_of(*img),
        },
        rotation == Rotation::Half ==> width_of(r) == width_of(*img) && height_of(r) == height_of(
            *img,
        ),
        rotation != Rotation::Half ==> width_of(r) == height_of(*img) && height_of(r) == width_of(
            *img,
        ),
{
    match rotation {
        Rotation::Quarter => rotated_quarter(img),
        Rotation::Half => rotated_half(img),
        Rotation::ThreeQuarters => rotated_three_quarters(img),
    }
}

/// Cuts `region` out of `img`, clipped to the image.
pub fn crop(img: &image::DynamicImage, region: CropRegion) -> (r: image::DynamicImage)
    ensures
        r == cropped_of(*img, region.x, region.y, region.width, region.height),
        width_of(r) == clipped_extent(width_of(*img), region.x, region.width),
        height_of(r) == clipped_extent(height_of(*img), region.y, region.height),
{
    cropped(img, region.x, region.y, region.width, region.height)
}

/// `value` limited to `-65535..=65535`. No integer channel exceeds 65535, so
/// brightening by the limited amount gives the same image.
pub open spec fn brightness_step(value: i32) -> i32 {
    if value < -65535 {
        -65535i32
    } else if value > 65535 {
        65535i32
    } else {
        value
    }
}

/// Adds `value` to every colour channel of `img`, saturating; a negative value
/// darkens. `None` for an image with float channels, which this does not
/// handle.
pub fn brighten(img: &image::DynamicImage, value: i32) -> (r: Option<image::DynamicImage>)
    ensures
        r is None <==> float_channels_of(*img),
        r is Some ==> r->0 == brightened_of(*img, brightness_step(value)),
        r is Some ==> width_of(r->0) == width_of(*img) && height_of(r->0) == height_of(*img),
{
    if has_float_channels(img) {
        return None;
    }
    let step: i32 = if value < -65535 {
        -65535
    } else if value > 65535 {
        65535
    } else {
        value
    };
    Some(brightened(img, step))
}

/// The grayscale version of `img`, of the same size.
pub fn grayscale(img: &image::DynamicImage) -> (r: image::DynamicImage)
    ensures
        r == grayscale_of(*img),
        width_of(r) == width_of(*img),
        height_of(r) == height_of(*img),
{
    grayscaled(img)
}

/// Inverts every colour channel of `img`, keeping its size.
pub fn invert(img: &mut image::DynamicImage)
    ensures
        *final(img) == inverted_of(*old(img)),
        width_of(*final(img)) == width_of(*old(img)),
        height_of(*final(img)) == height_of(*old(img)),
{
    invert_in_place(img)
}

} // verus!

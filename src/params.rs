use vstd::prelude::*;
use crate::text::{i32_of, parse_i32, parse_u32, split_fields, split_spec, u32_of};

verus! {

/// The rectangle that `crop` cuts out: its top-left corner and its size.
#[derive(Clone, Copy, Debug, PartialEq, Eq, Structural)]
pub struct CropRegion {
    pub x: u32,
    pub y: u32,
    pub width: u32,
    pub height: u32,
}

/// An RGB colour, one byte per channel.
#[derive(Clone, Copy, Debug, PartialEq, Eq, Structural)]
pub struct Color {
    pub red: u8,
    pub green: u8,
    pub blue: u8,
}

/// The crop rectangle written `XxYxWIDTHxHEIGHT`: the first four pieces
/// between `x`s must each be a `u32`; pieces after them are ignored.
pub open spec fn crop_region_of(s: Seq<char>) -> Option<CropRegion> {
    let f = split_spec(s, 'x');
    if f.len() >= 4 && u32_of(f[0]) is Some && u32_of(f[1]) is Some && u32_of(f[2]) is Some
        && u32_of(f[3]) is Some {
        Some(
            CropRegion {
                x: u32_of(f[0])->0,
                y: u32_of(f[1])->0,
                width: u32_of(f[2])->0,
                height: u32_of(f[3])->0,
            },
        )
    } else {
        None
    }
}

/// The low byte of `v`, as the cast `v as u8` keeps it.
pub open spec fn low_byte(v: i32) -> u8 {
    (v as int % 256) as u8
}

/// The colour written `RxGxB`: the first three pieces between `x`s must each
/// be an `i32`, of which the low byte is kept; pieces after them are ignored.
pub open spec fn color_of(s: Seq<char>) -> Option<Color> {
    let f = split_spec(s, 'x');
    if f.len() >= 3 && i32_of(f[0]) is Some && i32_of(f[1]) is Some && i32_of(f[2]) is Some {
        Some(
            Color {
                red: low_byte(i32_of(f[0])->0),
                green: low_byte(i32_of(f[1])->0),
                blue: low_byte(i32_of(f[2])->0),
            },
        )
    } else {
        None
    }
}

/// Piece `i` of a split, as a vector, views as the same characters.
proof fn lemma_field_view(f: &Vec<Vec<char>>, i: int)
    requires
        0 <= i < f@.len(),
    ensures
        f@[i]@ == f.deep_view()[i],
{
    assert(f@[i].deep_view() =~= f@[i]@);
}

/// Reads a crop rectangle written `XxYxWIDTHxHEIGHT`.
pub fn parse_crop_region(arg: &str) -> (r: Option<CropRegion>)
    ensures
        r == crop_region_of(arg@),
{
    let f = split_fields(arg, 'x');
    let ghost g = split_spec(arg@, 'x');
    assert(f.deep_view() == g);
    if f.len() < 4 {
        return None;
    }
    proof {
        lemma_field_view(&f, 0);
        lemma_field_view(&f, 1);
        lemma_field_view(&f, 2);
        lemma_field_view(&f, 3);
    }
    let x = parse_u32(&f[0]);
    let y = parse_u32(&f[1]);
    let width = parse_u32(&f[2]);
    let height = parse_u32(&f[3]);
    match (x, y, width, height) {
        (Some(x), Some(y), Some(width), Some(height)) => Some(CropRegion { x, y, width, height }),
        _ => None,
    }
}

/// The low byte of `v`.
pub fn low_byte_of(v: i32) -> (r: u8)
    ensures
        r == low_byte(v),
{
    let w: i64 = (v as i64) + 0x1_0000_0000;
    assert(w % 256 == v as int % 256) by (nonlinear_arith)
        requires
            w == v as int + 0x1_0000_0000,
    ;
    (w % 256) as u8
}

/// Reads a colour written `RxGxB`.
pub fn parse_color(arg: &str) -> (r: Option<Color>)
    ensures
        r == color_of(arg@),
{
    let f = split_fields(arg, 'x');
    let ghost g = split_spec(arg@, 'x');
    assert(f.deep_view() == g);
    if f.len() < 3 {
        return None;
    }
    proof {
        lemma_field_view(&f, 0);
        lemma_field_view(&f, 1);
        lemma_field_view(&f, 2);
    }
    let red = parse_i32(&f[0]);
    let green = parse_i32(&f[1]);
    let blue = parse_i32(&f[2]);
    match (red, green, blue) {
        (Some(red), Some(green), Some(blue)) => Some(
            Color { red: low_byte_of(red), green: low_byte_of(green), blue: low_byte_of(blue) },
        ),
        _ => None,
    }
}

} // verus!

//! Raster images from the clipboard and their transport-safe text form.

use vstd::prelude::*;
use crate::codec::{base64_encode, base64_input_limit, base64_text, encode_png, png_encoding};

verus! {

/// A picture as the clipboard hands it over: its size in pixels and its
/// pixels as 8-bit RGBA, row by row.
#[derive(Debug)]
pub struct RawImage {
    pub width: usize,
    pub height: usize,
    pub bytes: Vec<u8>,
}

/// The payload that stands for a picture: the base64 text of its PNG file.
/// There is none where a side does not fit in 32 bits, where `rgba` holds
/// fewer than four bytes for each pixel, where the PNG encoder fails, or
/// where the file is too long to be encoded as text.
pub open spec fn image_payload(width: usize, height: usize, rgba: Seq<u8>) -> Option<Seq<char>> {
    if width > u32::MAX || height > u32::MAX || rgba.len() < 4 * width * height {
        None
    } else {
        match png_encoding(width as u32, height as u32, rgba) {
            Some(png) => payload_of_png(png),
            None => None,
        }
    }
}

/// The payload for a finished PNG file, if it can be encoded as text.
pub open spec fn payload_of_png(png: Seq<u8>) -> Option<Seq<char>> {
    if png.len() <= base64_input_limit() {
        Some(base64_text(png))
    } else {
        None
    }
}

/// Whether `len` bytes are enough for a picture of the given size.
pub fn holds_pixels(width: u32, height: u32, len: usize) -> (enough: bool)
    ensures
        enough == (len >= 4 * width * height),
{
    let w: u128 = width as u128;
    let h: u128 = height as u128;
    assert(w * h <= 0xFFFF_FFFF * 0xFFFF_FFFF) by (nonlinear_arith)
        requires
            w <= 0xFFFF_FFFF,
            h <= 0xFFFF_FFFF,
    ;
    let pixels: u128 = w * h;
    assert(4 * width * height == 4 * pixels) by (nonlinear_arith)
        requires
            pixels == width * height,
    ;
    len as u128 >= 4 * pixels
}

/// Turns a finished PNG file into its payload.
pub fn png_to_payload(png: &Vec<u8>) -> (payload: Option<String>)
    ensures
        payload is Some <==> payload_of_png(png@) is Some,
        payload is Some ==> payload.unwrap()@ == payload_of_png(png@).unwrap(),
{
    if png.len() <= usize::MAX / 4 {
        Some(base64_encode(png))
    } else {
        None
    }
}

/// Encodes a picture as PNG and the PNG as base64 text.
pub fn encode_image(image: RawImage) -> (payload: Option<String>)
    ensures
        payload is Some <==> image_payload(image.width, image.height, image.bytes@) is Some,
        payload is Some ==> payload.unwrap()@ == image_payload(
            image.width,
            image.height,
            image.bytes@,
        ).unwrap(),
{
    if image.width > 0xFFFF_FFFF || image.height > 0xFFFF_FFFF {
        return None;
    }
    let width: u32 = image.width as u32;
    let height: u32 = image.height as u32;
    if !holds_pixels(width, height, image.bytes.len()) {
        return None;
    }
    match encode_png(width, height, image.bytes) {
        Some(png) => png_to_payload(&png),
        None => None,
    }
}

} // verus!

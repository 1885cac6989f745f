//! The text and image codecs that the hub relies on and does not prove:
//! each function here hands its arguments to the codec and states what
//! comes back.

use vstd::prelude::*;
use vstd::utf8::*;

verus! {

/// What `String::from_utf8_lossy` makes of bytes that are not well-formed
/// UTF-8: their text with every ill-formed sequence replaced by U+FFFD.
pub uninterp spec fn lossy_repair(bytes: Seq<u8>) -> Seq<char>;

/// Whether `c` has the Unicode property White_Space, by which `str::trim`
/// decides what to strip.
pub uninterp spec fn white_space(c: char) -> bool;

/// The standard, padded base64 text of `bytes`.
pub uninterp spec fn base64_text(bytes: Seq<u8>) -> Seq<char>;

/// The PNG file that the `image` crate writes for the 8-bit RGBA picture of
/// the given size whose pixels are the first `4 * width * height` bytes of
/// `rgba`; `None` where its encoder reports an error.
pub uninterp spec fn png_encoding(width: u32, height: u32, rgba: Seq<u8>) -> Option<Seq<u8>>;

/// The sixteen digits of the `\u` escapes.
pub open spec fn hex_digit(n: int) -> char
    recommends
        0 <= n < 16,
{
    seq!['0', '1', '2', '3', '4', '5', '6', '7', '8', '9', 'a', 'b', 'c', 'd', 'e', 'f'][n]
}

/// What stands for one character inside a JSON string literal. The
/// quotation mark, the backslash and the control characters below U+0020
/// are escaped, by two characters where JSON has such an escape and by
/// `\u00` and two digits where it has none; every other character stands
/// for itself.
pub open spec fn json_escape(c: char) -> Seq<char> {
    let code = c as u32 as int;
    if c == '"' {
        seq!['\\', '"']
    } else if c == '\\' {
        seq!['\\', '\\']
    } else if code == 0x08 {
        seq!['\\', 'b']
    } else if code == 0x09 {
        seq!['\\', 't']
    } else if code == 0x0a {
        seq!['\\', 'n']
    } else if code == 0x0c {
        seq!['\\', 'f']
    } else if code == 0x0d {
        seq!['\\', 'r']
    } else if code < 0x20 {
        seq!['\\', 'u', '0', '0', hex_digit(code / 16), hex_digit(code % 16)]
    } else {
        seq![c]
    }
}

/// The contents of the JSON string literal for `text`: its characters,
/// each escaped where it has to be.
pub open spec fn json_escaped(text: Seq<char>) -> Seq<char>
    decreases text.len(),
{
    if text.len() == 0 {
        Seq::empty()
    } else {
        json_escaped(text.drop_last()) + json_escape(text.last())
    }
}

/// The JSON string literal for `text`: the escaped contents between
/// quotation marks.
pub open spec fn json_string(text: Seq<char>) -> Seq<char> {
    seq!['"'] + json_escaped(text) + seq!['"']
}

/// The text of `bytes`, read leniently: well-formed UTF-8 is decoded as it
/// stands, anything else is repaired.
pub open spec fn lossy_text(bytes: Seq<u8>) -> Seq<char> {
    if valid_utf8(bytes) {
        decode_utf8(bytes)
    } else {
        lossy_repair(bytes)
    }
}

/// `text` without its leading white space.
pub open spec fn trim_start(text: Seq<char>) -> Seq<char>
    decreases text.len(),
{
    if text.len() > 0 && white_space(text.first()) {
        trim_start(text.drop_first())
    } else {
        text
    }
}

/// `text` without its trailing white space.
pub open spec fn trim_end(text: Seq<char>) -> Seq<char>
    decreases text.len(),
{
    if text.len() > 0 && white_space(text.last()) {
        trim_end(text.drop_last())
    } else {
        text
    }
}

/// `text` without the white space on either side.
pub open spec fn trimmed(text: Seq<char>) -> Seq<char> {
    trim_end(trim_start(text))
}

/// The most bytes that `base64_encode` takes: the encoded text is a third
/// longer than its input and has to fit in one allocation.
pub open spec fn base64_input_limit() -> int {
    (usize::MAX / 4) as int
}

/// Calls `Display` of `serde_json::Value` on a JSON string holding `text`.
/// Trusted: the result is the compact rendering of that one string value,
/// a quotation mark on either side and between them each character as the
/// escape table of `serde_json` has it.
#[verifier::external_body]
pub(crate) fn quote_json(text: &str) -> (quoted: String)
    ensures
        quoted@ == json_string(text@),
{
    serde_json::Value::String(text.to_owned()).to_string()
}

/// Calls `String::from_utf8_lossy`. Trusted: well-formed UTF-8 is decoded
/// as it stands, and what is made of other bytes depends on the bytes
/// alone.
#[verifier::external_body]
pub(crate) fn decode_lossy(bytes: &Vec<u8>) -> (text: String)
    ensures
        valid_utf8(bytes@) ==> text@ == decode_utf8(bytes@),
        !valid_utf8(bytes@) ==> text@ == lossy_repair(bytes@),
{
    String::from_utf8_lossy(bytes).into_owned()
}

/// Calls `str::trim`. Trusted: the result is `text` with the leading and the
/// trailing white space removed, so it neither starts nor ends with any.
#[verifier::external_body]
pub(crate) fn trim<'a>(text: &'a str) -> (inner: &'a str)
    ensures
        inner@ == trimmed(text@),
        inner@.len() > 0 ==> !white_space(inner@.first()) && !white_space(inner@.last()),
{
    text.trim()
}

/// Calls `base64::encode`, which panics where the length of the encoded
/// text overflows. Trusted: the result is the standard padded encoding,
/// which depends on the bytes alone.
#[allow(deprecated)]
#[verifier::external_body]
pub(crate) fn base64_encode(bytes: &Vec<u8>) -> (text: String)
    requires
        bytes@.len() <= base64_input_limit(),
    ensures
        text@ == base64_text(bytes@),
{
    base64::encode(bytes)
}

/// Builds an `image::RgbaImage` with `ImageBuffer::from_raw`, which accepts
/// any buffer of at least `4 * width * height` bytes, and writes it as PNG
/// into memory with `DynamicImage::write_to`. Trusted: the file depends on
/// the size and the bytes alone; an error of the encoder gives `None`.
#[verifier::external_body]
pub(crate) fn encode_png(width: u32, height: u32, rgba: Vec<u8>) -> (png: Option<Vec<u8>>)
    requires
        rgba@.len() >= 4 * width * height,
    ensures
        png is Some <==> png_encoding(width, height, rgba@) is Some,
        png is Some ==> png.unwrap()@ == png_encoding(width, height, rgba@).unwrap(),
{
    let mut file: Vec<u8> = Vec::new();
    let picture = image::RgbaImage::from_raw(width, height, rgba)?;
    match image::DynamicImage::ImageRgba8(picture).write_to(
        &mut std::io::Cursor::new(&mut file),
        image::ImageOutputFormat::Png,
    ) {
        Ok(()) => Some(file),
        Err(_) => None,
    }
}

} // verus!

use vstd::prelude::*;

use base64::Engine;

verus! {

/// The characters of Unicode's White_Space property, which `char::is_whitespace`
/// tests.
pub open spec fn white_space(c: char) -> bool {
    let u = c as u32;
    ||| 0x09 <= u <= 0x0d
    ||| u == 0x20
    ||| u == 0x85
    ||| u == 0xa0
    ||| u == 0x1680
    ||| 0x2000 <= u <= 0x200a
    ||| u == 0x2028
    ||| u == 0x2029
    ||| u == 0x202f
    ||| u == 0x205f
    ||| u == 0x3000
}

/// `s` without its leading white space.
pub open spec fn trim_start(s: Seq<char>) -> Seq<char>
    decreases s.len(),
{
    if s.len() > 0 && white_space(s[0]) {
        trim_start(s.skip(1))
    } else {
        s
    }
}

/// `s` without its trailing white space.
pub open spec fn trim_end(s: Seq<char>) -> Seq<char>
    decreases s.len(),
{
    if s.len() > 0 && white_space(s.last()) {
        trim_end(s.drop_last())
    } else {
        s
    }
}

/// `s` without its leading and trailing white space.
pub open spec fn trimmed(s: Seq<char>) -> Seq<char> {
    trim_end(trim_start(s))
}

/// The PNG file that encodes an RGBA image of the given size, if it can be encoded.
pub uninterp spec fn png_of(width: u32, height: u32, rgba: Seq<u8>) -> Option<Seq<u8>>;

/// Standard base64 text, with padding, of some bytes.
pub uninterp spec fn base64_of(bytes: Seq<u8>) -> Seq<char>;

/// The UTC instant `millis` milliseconds after the Unix epoch written with a
/// strftime-style pattern; none when the instant is out of the calendar's range.
pub uninterp spec fn utc_text_of(millis: i64, pattern: Seq<char>) -> Option<Seq<char>>;

/// Relies on `str::trim`: the sub-slice of `s` without leading and trailing
/// white space, as `char::is_whitespace` defines it.
#[verifier::external_body]
pub(crate) fn trim(s: &str) -> (r: &str)
    ensures
        r@ == trimmed(s@),
{
    s.trim()
}

/// Relies on `image::ImageBuffer::from_raw` and `ImageBuffer::write_to` with
/// `ImageFormat::Png`: the PNG encoding of the pixels, or none where the encoder
/// refuses them.
#[verifier::external_body]
pub(crate) fn encode_png(width: u32, height: u32, rgba: &Vec<u8>) -> (r: Option<Vec<u8>>)
    ensures
        match r {
            Some(b) => png_of(width, height, rgba@) == Some(b@),
            None => png_of(width, height, rgba@) is None,
        },
{
    let img = image::RgbaImage::from_raw(width, height, rgba.clone())?;
    let mut buffer = std::io::Cursor::new(Vec::new());
    img.write_to(&mut buffer, image::ImageFormat::Png).ok()?;
    Some(buffer.into_inner())
}

/// A character of the standard base64 alphabet, or the padding `=`.
pub open spec fn base64_char(c: char) -> bool {
    ('A' <= c <= 'Z') || ('a' <= c <= 'z') || ('0' <= c <= '9') || c == '+' || c == '/' || c
        == '='
}

/// Relies on `base64::engine::general_purpose::STANDARD.encode`, which panics only
/// where the length of the encoding overflows `usize`: four characters of the
/// standard alphabet for each started group of three bytes, padded with `=`.
#[verifier::external_body]
pub(crate) fn base64_encode(bytes: &Vec<u8>) -> (r: String)
    requires
        bytes@.len() <= usize::MAX / 2,
    ensures
        r@ == base64_of(bytes@),
        r@.len() == 4 * ((bytes@.len() + 2) / 3),
        forall|i: int| 0 <= i < r@.len() ==> #[trigger] base64_char(r@[i]),
{
    base64::engine::general_purpose::STANDARD.encode(bytes)
}

/// Relies on `chrono::DateTime::from_timestamp_millis` and `DateTime::format`: none
/// when the instant is out of range, else the formatted UTC date and time. Every
/// specifier of the accepted pattern is one that chrono can always write.
#[verifier::external_body]
pub(crate) fn format_utc(millis: i64, pattern: &str) -> (r: Option<String>)
    requires
        pattern@ == "%Y%m%d-%H%M%S"@,
    ensures
        match r {
            Some(t) => utc_text_of(millis, pattern@) == Some(t@),
            None => utc_text_of(millis, pattern@) is None,
        },
{
    match chrono::DateTime::from_timestamp_millis(millis) {
        Some(t) => Some(t.format(pattern).to_string()),
        None => None,
    }
}

} // verus!

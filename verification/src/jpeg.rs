//! Encoding of captured frames as JPEG images.

use vstd::prelude::*;

use crate::color::yuyv_to_rgb;
use crate::decimal::decimal;
use crate::text::same_text;

verus! {

/// Quality of the JPEG images, from 1 to 100.
pub const JPEG_QUALITY: u8 = 80;

/// The JPEG image that the encoder writes for RGB pixels that fill the given
/// dimensions.
pub uninterp spec fn jpeg_data(rgb: Seq<u8>, width: u16, height: u16, quality: u8) -> Seq<u8>;

/// Number of bytes of an RGB image.
pub open spec fn rgb_size(width: u16, height: u16) -> int {
    width * height * 3
}

/// What is said of pixels that do not fill the dimensions.
pub open spec fn short_data_text(length: nat, required: nat) -> Seq<char> {
    "Image data too small for dimensions and color_type: "@ + crate::decimal::decimal_text(length)
        + " need at least "@ + crate::decimal::decimal_text(required)
}

/// What is said of a width or a height of zero.
pub open spec fn zero_dimensions_text(width: u16, height: u16) -> Seq<char> {
    "Image dimensions must be non zero: "@ + crate::decimal::decimal_text(width as nat) + "x"@
        + crate::decimal::decimal_text(height as nat)
}

/// The outcome of encoding RGB pixels: the image, or what is wrong with them.
pub open spec fn jpeg_outcome(rgb: Seq<u8>, width: u16, height: u16, quality: u8) -> Result<
    Seq<u8>,
    Seq<char>,
> {
    if rgb.len() < rgb_size(width, height) {
        Err(short_data_text(rgb.len(), rgb_size(width, height) as nat))
    } else if width == 0 || height == 0 {
        Err(zero_dimensions_text(width, height))
    } else {
        Ok(jpeg_data(rgb, width, height, quality))
    }
}

/// `jpeg_encoder::Encoder::encode` with `ColorType::Rgb`, writing to a vector.
/// It fails where the pixels are fewer than the dimensions ask for, or where a
/// dimension is zero, and says so in the text of its error; else it writes an
/// image that depends on the arguments alone. The number of bytes that it asks
/// for is computed in a `usize`.
#[verifier::external_body]
fn encode_rgb(rgb: &[u8], width: u16, height: u16, quality: u8) -> (r: Result<Vec<u8>, String>)
    requires
        rgb_size(width, height) <= usize::MAX,
        1 <= quality <= 100,
    ensures
        match r {
            Ok(data) => {
                &&& rgb@.len() >= rgb_size(width, height)
                &&& width != 0
                &&& height != 0
                &&& data@ == jpeg_data(rgb@, width, height, quality)
            },
            Err(message) => jpeg_outcome(rgb@, width, height, quality) == Err::<
                Seq<u8>,
                Seq<char>,
            >(message@),
        },
{
    let mut output = Vec::new();
    let encoder = jpeg_encoder::Encoder::new(&mut output, quality);
    match encoder.encode(rgb, width, height, jpeg_encoder::ColorType::Rgb) {
        Ok(()) => Ok(output),
        Err(error) => Err(error.to_string()),
    }
}

/// The low 16 bits of a number.
pub open spec fn low16(n: u32) -> u16 {
    (n % 0x1_0000) as u16
}

/// The outcome of encoding a captured frame. An MJPG frame is a JPEG image
/// already; a YUYV frame is converted to RGB and encoded, with the dimensions
/// cut to 16 bits; any other encoding is refused.
pub open spec fn encoded_frame(
    frame: Seq<u8>,
    width: u32,
    height: u32,
    encoding: Seq<char>,
) -> Result<Seq<u8>, Seq<char>> {
    if encoding == "MJPG"@ {
        Ok(frame)
    } else if encoding == "YUYV"@ {
        jpeg_outcome(crate::color::rgb_image(frame), low16(width), low16(height), JPEG_QUALITY)
    } else {
        Err("Unsupported capture encoding "@ + encoding)
    }
}

/// The value of a result with a vector or a string in it.
pub open spec fn outcome_view(r: Result<Vec<u8>, String>) -> Result<Seq<u8>, Seq<char>> {
    match r {
        Ok(data) => Ok(data@),
        Err(message) => Err(message@),
    }
}

/// Encodes RGB pixels. Dimensions that ask for more bytes than a `usize` can
/// count are never filled.
fn encode_pixels(rgb: &[u8], width: u16, height: u16) -> (r: Result<Vec<u8>, String>)
    ensures
        outcome_view(r) == jpeg_outcome(rgb@, width, height, JPEG_QUALITY),
{
    assert(width * height <= 0xffff * 0xffff) by (nonlinear_arith)
        requires
            width <= 0xffff,
            height <= 0xffff,
    ;
    let required: u64 = width as u64 * height as u64 * 3;
    let length: usize = rgb.len();
    if required > usize::MAX as u64 {
        let mut message: String =
            "Image data too small for dimensions and color_type: ".to_owned();
        message.append(decimal(length as u64).as_str());
        message.append(" need at least ");
        message.append(decimal(required).as_str());
        return Err(message);
    }
    encode_rgb(rgb, width, height, JPEG_QUALITY)
}

/// Turns a captured frame into a JPEG image.
pub fn encode_frame_to_jpeg(
    frame: &[u8],
    width: u32,
    height: u32,
    capture_encoding: &str,
) -> (r: Result<Vec<u8>, String>)
    ensures
        outcome_view(r) == encoded_frame(frame@, width, height, capture_encoding@),
{
    if same_text(capture_encoding, "MJPG") {
        let mut image: Vec<u8> = Vec::new();
        image.extend_from_slice(frame);
        assert(image@ =~= frame@);
        Ok(image)
    } else if same_text(capture_encoding, "YUYV") {
        let rgb: Vec<u8> = yuyv_to_rgb(frame);
        let narrow_width: u16 = (width % 0x1_0000) as u16;
        let narrow_height: u16 = (height % 0x1_0000) as u16;
        encode_pixels(rgb.as_slice(), narrow_width, narrow_height)
    } else {
        let mut message: String = "Unsupported capture encoding ".to_owned();
        message.append(capture_encoding);
        Err(message)
    }
}

/// A YUYV frame with all its pixels, of dimensions between 1 and 65535, is
/// always encoded.
pub proof fn law_full_frame_is_encoded(frame: Seq<u8>, width: u32, height: u32)
    requires
        1 <= width <= 0xffff,
        1 <= height <= 0xffff,
        frame.len() == width * height * 2,
        frame.len() % 4 == 0,
    ensures
        encoded_frame(frame, width, height, "YUYV"@) is Ok,
{
    reveal_strlit("MJPG");
    reveal_strlit("YUYV");
    assert("MJPG"@[0] != "YUYV"@[0]);
    let w = low16(width);
    let h = low16(height);
    assert(w == width && h == height);
    assert(rgb_size(w, h) == width * height * 3);
    assert(crate::color::rgb_image(frame).len() == frame.len() / 4 * 6);
}

/// An MJPG frame is passed on as it is, whatever its dimensions and content.
pub proof fn law_mjpg_is_passed_on(frame: Seq<u8>, width: u32, height: u32)
    ensures
        encoded_frame(frame, width, height, seq!['M', 'J', 'P', 'G']) == Ok::<Seq<u8>, Seq<char>>(
            frame,
        ),
{
    reveal_strlit("MJPG");
    assert("MJPG"@ =~= seq!['M', 'J', 'P', 'G']);
}

/// A YUYV frame is converted to RGB and encoded at quality 80 in its width and
/// height, of which the low 16 bits count. It is refused where the pixels of its
/// whole groups do not fill the dimensions, and else where a dimension is zero.
pub proof fn law_yuyv_is_encoded(frame: Seq<u8>, width: u32, height: u32, w: u16, h: u16)
    requires
        width % 65536 == w,
        height % 65536 == h,
    ensures
        ({
            let outcome = encoded_frame(frame, width, height, seq!['Y', 'U', 'Y', 'V']);
            let have: nat = (6 * (frame.len() / 4)) as nat;
            let need: nat = (3 * (w * h)) as nat;
            &&& have < need ==> outcome == Err::<Seq<u8>, Seq<char>>(
                "Image data too small for dimensions and color_type: "@
                    + crate::decimal::decimal_text(have) + " need at least "@
                    + crate::decimal::decimal_text(need),
            )
            &&& have >= need && (w == 0 || h == 0) ==> outcome == Err::<Seq<u8>, Seq<char>>(
                "Image dimensions must be non zero: "@ + crate::decimal::decimal_text(w as nat)
                    + "x"@ + crate::decimal::decimal_text(h as nat),
            )
            &&& have >= need && w > 0 && h > 0 ==> outcome == Ok::<Seq<u8>, Seq<char>>(
                jpeg_data(crate::color::rgb_image(frame), w, h, 80),
            )
        }),
{
    reveal_strlit("MJPG");
    reveal_strlit("YUYV");
    assert("YUYV"@ =~= seq!['Y', 'U', 'Y', 'V']);
    assert("MJPG"@[0] != "YUYV"@[0]);
    assert(low16(width) == w && low16(height) == h);
    assert(0 <= w * h) by (nonlinear_arith);
    assert(w * h * 3 == 3 * (w * h));
    assert(crate::color::rgb_image(frame).len() == 6 * (frame.len() / 4));
}

/// A frame in any other encoding is refused with the name of the encoding,
/// whatever it holds.
pub proof fn law_other_encodings_are_refused(
    frame: Seq<u8>,
    width: u32,
    height: u32,
    encoding: Seq<char>,
)
    requires
        encoding != seq!['Y', 'U', 'Y', 'V'],
        encoding != seq!['M', 'J', 'P', 'G'],
    ensures
        encoded_frame(frame, width, height, encoding) == Err::<Seq<u8>, Seq<char>>(
            "Unsupported capture encoding "@ + encoding,
        ),
{
    reveal_strlit("MJPG");
    reveal_strlit("YUYV");
    assert("YUYV"@ =~= seq!['Y', 'U', 'Y', 'V']);
    assert("MJPG"@ =~= seq!['M', 'J', 'P', 'G']);
}

/// An outcome has the bytes of its image or the text of its message as its value.
pub proof fn law_outcome_value(data: Vec<u8>, message: String)
    ensures
        outcome_view(Ok(data)) == Ok::<Seq<u8>, Seq<char>>(data@),
        outcome_view(Err(message)) == Err::<Seq<u8>, Seq<char>>(message@),
{
}

} // verus!

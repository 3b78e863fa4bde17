//! Conversion of packed YUYV frames to RGB in 16.16 fixed-point arithmetic.

use vstd::prelude::*;

verus! {

/// Weight of V in the red channel, 1.402 in 16.16 fixed point.
pub const RED_V: i32 = 91881;

/// Weight of U in the green channel, 0.344136 in 16.16 fixed point.
pub const GREEN_U: i32 = 22554;

/// Weight of V in the green channel, 0.714136 in 16.16 fixed point.
pub const GREEN_V: i32 = 46802;

/// Weight of U in the blue channel, 1.772 in 16.16 fixed point.
pub const BLUE_U: i32 = 116130;

/// One half in 16.16 fixed point.
pub const HALF: i32 = 32768;

/// The luma in 16.16 fixed point. The shift keeps the low 32 bits, so a luma
/// outside the 16-bit range wraps.
pub open spec fn luma_fixed(y: int) -> int {
    (y * 0x1_0000 + 0x8000_0000) % 0x1_0000_0000 - 0x8000_0000
}

/// The value fits an `i32`.
pub open spec fn fits(value: int) -> bool {
    i32::MIN <= value <= i32::MAX
}

/// No intermediate value of the conversion leaves the range of an `i32`.
pub open spec fn convertible(y: int, u: int, v: int) -> bool {
    let luma = luma_fixed(y);
    &&& fits(RED_V * v)
    &&& fits(luma + RED_V * v)
    &&& fits(luma + RED_V * v + HALF)
    &&& fits(GREEN_U * u)
    &&& fits(luma - GREEN_U * u)
    &&& fits(GREEN_V * v)
    &&& fits(luma - GREEN_U * u - GREEN_V * v)
    &&& fits(luma - GREEN_U * u - GREEN_V * v + HALF)
    &&& fits(BLUE_U * u)
    &&& fits(luma + BLUE_U * u)
    &&& fits(luma + BLUE_U * u + HALF)
}

/// The nearest value in the range of a byte.
pub open spec fn clamped(value: int) -> u8 {
    if value < 0 {
        0
    } else if value > 255 {
        255
    } else {
        value as u8
    }
}

/// Red, green and blue of one pixel: the weighted sum, rounded to the nearest
/// integer and clamped to a byte.
pub open spec fn rgb(y: int, u: int, v: int) -> Seq<u8> {
    let luma = luma_fixed(y);
    seq![
        clamped((luma + RED_V * v + HALF) / 0x1_0000),
        clamped((luma - GREEN_U * u - GREEN_V * v + HALF) / 0x1_0000),
        clamped((luma + BLUE_U * u + HALF) / 0x1_0000),
    ]
}

/// Byte `i` of the RGB image of a packed frame. Each four bytes Y0 U Y1 V make
/// two pixels of three bytes each; the chroma bytes are offset by 128.
pub open spec fn rgb_byte(frame: Seq<u8>, i: int) -> u8 {
    let chunk = i / 6 * 4;
    let y = frame[if i % 6 < 3 { chunk } else { chunk + 2 }];
    rgb(y as int, frame[chunk + 1] - 128, frame[chunk + 3] - 128)[i % 3]
}

/// The RGB image of a packed frame. Up to three trailing bytes that do not
/// fill a group of four are dropped.
pub open spec fn rgb_image(frame: Seq<u8>) -> Seq<u8> {
    Seq::new((frame.len() / 4 * 6) as nat, |i: int| rgb_byte(frame, i))
}

/// The pixel that a luma byte and two chroma bytes of a frame stand for, with
/// the arithmetic out of sight.
#[verifier::opaque]
spec fn frame_pixel(y: u8, u: u8, v: u8) -> Seq<u8> {
    rgb(y as int, u - 128, v - 128)
}

/// Byte `i` of the RGB image of a packed frame.
spec fn pixel_byte(frame: Seq<u8>, i: int) -> u8 {
    let chunk = i / 6 * 4;
    let y = frame[if i % 6 < 3 { chunk } else { chunk + 2 }];
    frame_pixel(y, frame[chunk + 1], frame[chunk + 3])[i % 3]
}

/// The RGB image of a packed frame.
spec fn pixel_image(frame: Seq<u8>) -> Seq<u8> {
    Seq::new((frame.len() / 4 * 6) as nat, |i: int| pixel_byte(frame, i))
}

proof fn lemma_pixel_image(frame: Seq<u8>)
    ensures
        pixel_image(frame) == rgb_image(frame),
{
    assert forall|i: int| 0 <= i < frame.len() / 4 * 6 implies #[trigger] pixel_byte(frame, i)
        == rgb_byte(frame, i) by {
        reveal(frame_pixel);
    }
    assert(pixel_image(frame) =~= rgb_image(frame));
}

/// Clamps a value to the range of a byte.
fn clamp_u8(value: i32) -> (r: u8)
    ensures
        r == clamped(value as int),
{
    if value < 0 {
        0
    } else if value > 255 {
        255
    } else {
        value as u8
    }
}

/// Converts one pixel. `u` and `v` are the chroma values with the offset of
/// 128 already taken off.
pub fn yuv_to_rgb(y: i32, u: i32, v: i32) -> (r: [u8; 3])
    requires
        convertible(y as int, u as int, v as int),
    ensures
        r@ == rgb(y as int, u as int, v as int),
{
    let y_fixed: i32 = y << 16;
    assert(y_fixed == luma_fixed(y as int)) by {
        lemma_luma_shift(y);
    }
    let red_sum: i32 = y_fixed + RED_V * v + HALF;
    let green_sum: i32 = y_fixed - GREEN_U * u - GREEN_V * v + HALF;
    let blue_sum: i32 = y_fixed + BLUE_U * u + HALF;
    let red: i32 = red_sum >> 16;
    let green: i32 = green_sum >> 16;
    let blue: i32 = blue_sum >> 16;
    proof {
        lemma_shift_right(red_sum);
        lemma_shift_right(green_sum);
        lemma_shift_right(blue_sum);
    }
    [clamp_u8(red), clamp_u8(green), clamp_u8(blue)]
}

proof fn lemma_luma_shift(y: i32)
    ensures
        (y << 16) == luma_fixed(y as int),
{
    let low: i32 = y << 16;
    assert((y * 0x1_0000 - low) % 0x1_0000_0000 == 0) by (bit_vector)
        requires
            low == y << 16,
    ;
    let k: int = (y * 0x1_0000 - low) / 0x1_0000_0000;
    assert(y * 0x1_0000 == low + k * 0x1_0000_0000);
    assert((low + 0x8000_0000 + k * 0x1_0000_0000) % 0x1_0000_0000 == low + 0x8000_0000);
}

proof fn lemma_shift_right(x: i32)
    ensures
        (x >> 16) == x as int / 0x1_0000,
{
    let high: i32 = x >> 16;
    assert(high * 0x1_0000 <= x && x < high * 0x1_0000 + 0x1_0000) by (bit_vector)
        requires
            high == x >> 16,
    ;
}

/// Chroma and luma taken from bytes are always convertible.
pub proof fn lemma_bytes_convertible(y: u8, u: u8, v: u8)
    ensures
        convertible(y as int, u - 128, v - 128),
        luma_fixed(y as int) == y * 0x1_0000,
{
}

proof fn lemma_three_channels(y: u8, u: u8, v: u8)
    ensures
        frame_pixel(y, u, v).len() == 3,
{
    reveal(frame_pixel);
}

/// Converts the pixel that a luma byte and two chroma bytes stand for.
fn convert_pixel(y: u8, u: u8, v: u8) -> (r: [u8; 3])
    ensures
        r@ == frame_pixel(y, u, v),
{
    proof {
        lemma_bytes_convertible(y, u, v);
        reveal(frame_pixel);
    }
    yuv_to_rgb(y as i32, u as i32 - 128, v as i32 - 128)
}

/// A further group of four bytes adds its two pixels to the image.
proof fn lemma_image_grows(frame: Seq<u8>, i: int)
    requires
        0 <= i,
        i % 4 == 0,
        i + 4 <= frame.len(),
    ensures
        pixel_image(frame.take(i + 4)) == pixel_image(frame.take(i)) + frame_pixel(
            frame[i],
            frame[i + 1],
            frame[i + 3],
        ) + frame_pixel(frame[i + 2], frame[i + 1], frame[i + 3]),
{
    let k = i / 4;
    let longer = frame.take(i + 4);
    let shorter = frame.take(i);
    let first = frame_pixel(frame[i], frame[i + 1], frame[i + 3]);
    let second = frame_pixel(frame[i + 2], frame[i + 1], frame[i + 3]);
    lemma_three_channels(frame[i], frame[i + 1], frame[i + 3]);
    lemma_three_channels(frame[i + 2], frame[i + 1], frame[i + 3]);
    assert(pixel_image(longer).len() == 6 * k + 6);
    assert(pixel_image(shorter).len() == 6 * k);
    assert forall|j: int| 0 <= j < 6 * k + 6 implies pixel_image(longer)[j] == (pixel_image(shorter)
        + first + second)[j] by {
        if j < 6 * k {
            assert(j / 6 * 4 + 3 < i);
            assert(pixel_byte(longer, j) == pixel_byte(shorter, j));
        } else {
            assert(j / 6 == k);
            assert(j % 6 == j - 6 * k);
        }
    }
    assert(pixel_image(longer) =~= pixel_image(shorter) + first + second);
}

/// Appends the three bytes of a pixel.
fn push_pixel(output: &mut Vec<u8>, pixel: [u8; 3])
    ensures
        final(output)@ == old(output)@ + pixel@,
{
    output.push(pixel[0]);
    output.push(pixel[1]);
    output.push(pixel[2]);
    assert(output@ =~= old(output)@ + pixel@);
}

/// Converts a packed YUYV frame to RGB, two pixels for each four bytes.
pub fn yuyv_to_rgb(frame: &[u8]) -> (r: Vec<u8>)
    ensures
        r@ == rgb_image(frame@),
{
    let mut output: Vec<u8> = Vec::new();
    let mut i: usize = 0;
    assert(output@ =~= pixel_image(frame@.take(0)));
    while frame.len() - i >= 4
        invariant
            i <= frame.len(),
            i % 4 == 0,
            output@ == pixel_image(frame@.take(i as int)),
        decreases frame.len() - i,
    {
        proof {
            lemma_image_grows(frame@, i as int);
        }
        let u: u8 = frame[i + 1];
        let v: u8 = frame[i + 3];
        push_pixel(&mut output, convert_pixel(frame[i], u, v));
        push_pixel(&mut output, convert_pixel(frame[i + 2], u, v));
        i += 4;
    }
    assert(pixel_image(frame@.take(i as int)) =~= pixel_image(frame@)) by {
        assert(i / 4 == frame@.len() / 4);
        assert forall|j: int| 0 <= j < frame@.len() / 4 * 6 implies pixel_byte(
            frame@.take(i as int),
            j,
        ) == pixel_byte(frame@, j) by {
            assert(j / 6 * 4 + 3 < i);
        }
    }
    proof {
        lemma_pixel_image(frame@);
    }
    output
}

/// A pixel without chroma is gray: all three channels equal the luma.
pub proof fn law_gray_keeps_luma(y: u8)
    ensures
        rgb(y as int, 0, 0) == seq![y, y, y],
{
    lemma_bytes_convertible(y, 128, 128);
    assert((y * 0x1_0000 + HALF) / 0x1_0000 == y);
    assert(rgb(y as int, 0, 0) =~= seq![y, y, y]);
}

/// The nearest integer to `numerator / 1_000_000`.
pub open spec fn rounded_millionths(numerator: int) -> int {
    (numerator + 500_000) / 1_000_000
}

/// On luma and chroma taken from bytes, every channel is within one of the
/// conversion with the weights 1.402, 0.344136, 0.714136 and 1.772, rounded to
/// the nearest integer and clamped.
pub proof fn law_fixed_point_matches_reference(y: u8, u: u8, v: u8)
    ensures
        ({
            let du = u - 128;
            let dv = v - 128;
            let pixel = rgb(y as int, du, dv);
            let red = clamped(rounded_millionths(1_000_000 * y + 1_402_000 * dv));
            let green = clamped(
                rounded_millionths(1_000_000 * y - 344_136 * du - 714_136 * dv),
            );
            let blue = clamped(rounded_millionths(1_000_000 * y + 1_772_000 * du));
            &&& -1 <= pixel[0] - red <= 1
            &&& -1 <= pixel[1] - green <= 1
            &&& -1 <= pixel[2] - blue <= 1
        }),
{
    lemma_bytes_convertible(y, u, v);
}

/// A byte is the nearest one to a number of 65536ths: a number below the range
/// of bytes goes to the lowest byte and one above it to the highest, and a half
/// is rounded up.
pub open spec fn is_nearest_byte(byte: u8, sum: int) -> bool {
    &&& byte > 0 ==> 65536 * byte - 32768 <= sum
    &&& byte < 255 ==> sum < 65536 * byte + 32768
}

/// Every pixel of ordinary luma has the three bytes nearest to the weighted sums
/// of its luma and its two chroma values: red goes with V, blue with U, and green
/// against both.
pub proof fn law_pixel_is_nearest(y: int, u: int, v: int)
    requires
        -0x8000 <= y < 0x8000,
    ensures
        rgb(y, u, v).len() == 3,
        is_nearest_byte(rgb(y, u, v)[0], 65536 * y + 91881 * v),
        is_nearest_byte(rgb(y, u, v)[1], 65536 * y - 22554 * u - 46802 * v),
        is_nearest_byte(rgb(y, u, v)[2], 65536 * y + 116130 * u),
{
    assert(luma_fixed(y) == 65536 * y);
}

/// Only the low 16 bits of the luma count.
pub proof fn law_luma_wraps(y: int, u: int, v: int)
    ensures
        rgb(y + 0x1_0000, u, v) == rgb(y, u, v),
{
    assert((y + 0x1_0000) * 0x1_0000 + 0x8000_0000 == (y * 0x1_0000 + 0x8000_0000)
        + 0x1_0000_0000);
    assert(luma_fixed(y + 0x1_0000) == luma_fixed(y));
}

/// A pixel of ordinary luma and chroma can be converted.
pub proof fn law_ordinary_pixel_is_convertible(y: int, u: int, v: int)
    requires
        -32000 <= y <= 32000,
        -255 <= u <= 255,
        -255 <= v <= 255,
    ensures
        convertible(y, u, v),
{
    assert(luma_fixed(y) == 65536 * y);
}

/// A pixel is converted wherever the sums stay within 32 bits however they are
/// formed.
pub proof fn law_small_sums_are_convertible(y: int, u: int, v: int, abs_u: int, abs_v: int)
    requires
        -0x8000 <= y < 0x8000,
        -abs_u <= u <= abs_u,
        -abs_v <= v <= abs_v,
        -0x8000_0000 <= 65536 * y - 116130 * abs_u - 91881 * abs_v,
        65536 * y + 116130 * abs_u + 91881 * abs_v + 32768 <= 0x7fff_ffff,
    ensures
        convertible(y, u, v),
{
    assert(luma_fixed(y) == 65536 * y);
}

/// The RGB image has six bytes for each whole group of four bytes of the frame.
pub proof fn law_image_size(frame: Seq<u8>)
    ensures
        rgb_image(frame).len() % 6 == 0,
        4 * (rgb_image(frame).len() / 6) <= frame.len(),
        frame.len() < 4 * (rgb_image(frame).len() / 6) + 4,
{
}

/// Pixel `k` of group `g` of a frame stands in the image at byte `6 g + 3 k`, red
/// before green before blue. Its luma is byte `2 k` of the group, its U byte 1 and
/// its V byte 3, both less 128; each channel is the nearest byte to its sum.
pub proof fn law_frame_pixels_are_nearest(frame: Seq<u8>, g: int, k: int)
    requires
        0 <= g,
        4 * g + 4 <= frame.len(),
        0 <= k <= 1,
    ensures
        ({
            let image = rgb_image(frame);
            let at = 6 * g + 3 * k;
            let y = frame[4 * g + 2 * k] as int;
            let u = frame[4 * g + 1] - 128;
            let v = frame[4 * g + 3] - 128;
            &&& at + 3 <= image.len()
            &&& is_nearest_byte(image[at], 65536 * y + 91881 * v)
            &&& is_nearest_byte(image[at + 1], 65536 * y - 22554 * u - 46802 * v)
            &&& is_nearest_byte(image[at + 2], 65536 * y + 116130 * u)
        }),
{
    let at = 6 * g + 3 * k;
    let y = frame[4 * g + 2 * k] as int;
    let u = frame[4 * g + 1] - 128;
    let v = frame[4 * g + 3] - 128;
    law_pixel_is_nearest(y, u, v);
    assert(at / 6 == g && (at + 1) / 6 == g && (at + 2) / 6 == g);
    assert(at % 6 == 3 * k && (at + 1) % 6 == 3 * k + 1 && (at + 2) % 6 == 3 * k + 2);
    assert(at % 3 == 0 && (at + 1) % 3 == 1 && (at + 2) % 3 == 2);
    assert(rgb_image(frame)[at] == rgb(y, u, v)[0]);
    assert(rgb_image(frame)[at + 1] == rgb(y, u, v)[1]);
    assert(rgb_image(frame)[at + 2] == rgb(y, u, v)[2]);
}

/// A byte is within one of a number of millionths, once that number is brought
/// into the range of bytes.
pub open spec fn is_close_byte(byte: u8, millionths: int) -> bool {
    &&& byte > 1 ==> 1_000_000 * (byte - 2) < millionths
    &&& byte < 254 ==> millionths < 1_000_000 * (byte + 2)
    &&& millionths < 0 ==> byte <= 1
    &&& millionths > 255_000_000 ==> byte >= 254
}

/// Every pixel of the image of a frame is that of the conversion with the weights
/// 1.402, 0.344136, 0.714136 and 1.772, but for rounding: with `y`, `u` and `v`
/// taken from the bytes of the frame.
pub proof fn law_frame_matches_reference(frame: Seq<u8>, g: int, k: int)
    requires
        0 <= g,
        4 * g + 4 <= frame.len(),
        0 <= k <= 1,
    ensures
        ({
            let image = rgb_image(frame);
            let at = 6 * g + 3 * k;
            let y = frame[4 * g + 2 * k] as int;
            let u = frame[4 * g + 1] - 128;
            let v = frame[4 * g + 3] - 128;
            &&& is_close_byte(image[at], 1_000_000 * y + 1_402_000 * v)
            &&& is_close_byte(image[at + 1], 1_000_000 * y - 344_136 * u - 714_136 * v)
            &&& is_close_byte(image[at + 2], 1_000_000 * y + 1_772_000 * u)
        }),
{
    law_frame_pixels_are_nearest(frame, g, k);
}

/// A frame in two parts, cut between groups, has the images of the parts one
/// behind the other: no group bears on another.
pub proof fn law_groups_are_independent(first: Seq<u8>, second: Seq<u8>)
    requires
        first.len() % 4 == 0,
    ensures
        rgb_image(first + second) == rgb_image(first) + rgb_image(second),
{
    let whole = first + second;
    let n = first.len() / 4 * 6;
    assert(whole.len() / 4 == first.len() / 4 + second.len() / 4);
    assert forall|i: int| 0 <= i < rgb_image(whole).len() implies rgb_image(whole)[i] == (rgb_image(
        first,
    ) + rgb_image(second))[i] by {
        if i < n {
            assert(i / 6 * 4 + 3 < first.len());
            assert(rgb_byte(whole, i) == rgb_byte(first, i));
        } else {
            let j = i - n;
            assert(i / 6 == first.len() / 4 + j / 6);
            assert(i % 6 == j % 6);
            assert(i % 3 == j % 3);
            assert(i / 6 * 4 == first.len() + j / 6 * 4);
            assert(j / 6 * 4 + 3 < second.len());
            assert(rgb_byte(whole, i) == rgb_byte(second, j));
        }
    }
    assert(rgb_image(whole) =~= rgb_image(first) + rgb_image(second));
}

} // verus!

//! Frames as shared byte buffers, and their framing in a multipart stream.

use vstd::prelude::*;

use bytes::Bytes;

use crate::decimal::decimal;

verus! {

/// `bytes::Bytes`, a shared immutable buffer of bytes.
#[verifier::external_type_specification]
#[verifier::external_body]
pub struct ExBytes(bytes::Bytes);

/// The bytes that a buffer holds.
pub uninterp spec fn content(buffer: bytes::Bytes) -> Seq<u8>;

/// `Bytes::new` makes an empty buffer.
pub assume_specification[ bytes::Bytes::new ]() -> (r: bytes::Bytes)
    ensures
        content(r) == Seq::<u8>::empty(),
;

/// `Bytes::from(Vec<u8>)` takes the vector over: the buffer holds its bytes.
#[verifier::external_body]
pub(crate) fn buffer_of(data: Vec<u8>) -> (r: Bytes)
    ensures
        content(r) == data@,
{
    Bytes::from(data)
}

/// `Bytes::deref` gives the bytes of the buffer as a slice.
#[verifier::external_body]
pub(crate) fn slice_of(buffer: &Bytes) -> (r: &[u8])
    ensures
        r@ == content(*buffer),
{
    buffer
}

/// The bytes of an ASCII text, one for each character.
pub open spec fn ascii_bytes(s: Seq<char>) -> Seq<u8> {
    s.map_values(|c: char| c as u8)
}

/// The lines in front of a frame in a multipart stream: the boundary and the
/// two headers, with the length of the frame in decimal, and an empty line.
pub open spec fn part_header(len: nat) -> Seq<char> {
    "--frame\r\nContent-Type: image/jpeg\r\nContent-Length: "@ + crate::decimal::decimal_text(len)
        + "\r\n\r\n"@
}

/// One part of a multipart stream: the header lines, the frame, a line end.
pub open spec fn mjpeg_part(frame: Seq<u8>) -> Seq<u8> {
    ascii_bytes(part_header(frame.len())) + frame + ascii_bytes("\r\n"@)
}

/// Appends the bytes of a slice.
fn append_bytes(data: &mut Vec<u8>, more: &[u8])
    ensures
        final(data)@ == old(data)@ + more@,
{
    data.extend_from_slice(more);
    assert(data@ =~= old(data)@ + more@);
}

proof fn lemma_header_ascii(len: nat)
    ensures
        vstd::utf8::is_ascii_chars(part_header(len)),
        vstd::utf8::is_ascii_chars("\r\n"@),
{
    reveal_strlit("--frame\r\nContent-Type: image/jpeg\r\nContent-Length: ");
    reveal_strlit("\r\n\r\n");
    reveal_strlit("\r\n");
    crate::decimal::lemma_decimal_digits(len);
    let digits = crate::decimal::decimal_text(len);
    assert forall|i: int| 0 <= i < digits.len() implies #[trigger] digits[i] <= '\u{7f}' by {
        assert(crate::decimal::is_digit(digits[i]));
    }
}

/// Frames a JPEG image as one part of a multipart stream.
pub fn build_mjpeg_chunk(frame: &Bytes) -> (r: Bytes)
    ensures
        content(r) == mjpeg_part(content(*frame)),
{
    let data: &[u8] = slice_of(frame);
    let mut header: String = "--frame\r\nContent-Type: image/jpeg\r\nContent-Length: ".to_owned();
    header.append(decimal(data.len() as u64).as_str());
    header.append("\r\n\r\n");
    proof {
        lemma_header_ascii(data@.len());
        vstd::utf8::is_ascii_chars_encode_utf8(part_header(data@.len()));
        vstd::utf8::is_ascii_chars_encode_utf8("\r\n"@);
    }
    let mut chunk: Vec<u8> = Vec::new();
    append_bytes(&mut chunk, header.as_str().as_bytes());
    append_bytes(&mut chunk, data);
    append_bytes(&mut chunk, "\r\n".as_bytes());
    assert(chunk@ =~= mjpeg_part(data@));
    buffer_of(chunk)
}

/// The announced number of bytes behind the header lines is the frame.
pub proof fn law_part_carries_frame(frame: Seq<u8>)
    ensures
        ({
            let start = part_header(frame.len()).len() as int;
            mjpeg_part(frame).subrange(start, start + frame.len()) == frame
        }),
{
    let start = part_header(frame.len()).len() as int;
    assert(mjpeg_part(frame).subrange(start, start + frame.len()) =~= frame);
}

/// Different frames make different parts.
pub proof fn law_part_injective(a: Seq<u8>, b: Seq<u8>)
    requires
        mjpeg_part(a) == mjpeg_part(b),
    ensures
        a == b,
{
    let prefix = "--frame\r\nContent-Type: image/jpeg\r\nContent-Length: "@;
    reveal_strlit("\r\n\r\n");
    let da = crate::decimal::decimal_text(a.len());
    let db = crate::decimal::decimal_text(b.len());
    crate::decimal::lemma_decimal_digits(a.len());
    crate::decimal::lemma_decimal_digits(b.len());
    let part = mjpeg_part(a);
    let n = prefix.len() as int;
    assert forall|i: int| 0 <= i < da.len() implies part[n + i] == #[trigger] da[i] as u8 by {}
    assert forall|i: int| 0 <= i < db.len() implies part[n + i] == #[trigger] db[i] as u8 by {}
    assert(part[n + da.len()] == 13);
    assert(part[n + db.len()] == 13);
    if da.len() < db.len() {
        assert(crate::decimal::is_digit(db[da.len() as int]));
    } else if db.len() < da.len() {
        assert(crate::decimal::is_digit(da[db.len() as int]));
    }
    assert forall|i: int| 0 <= i < da.len() implies da[i] == db[i] by {
        assert(crate::decimal::is_digit(da[i]) && crate::decimal::is_digit(db[i]));
        assert(part[n + i] == da[i] as u8 && part[n + i] == db[i] as u8);
    }
    assert(da =~= db);
    crate::decimal::law_decimal_injective(a.len(), b.len());
    law_part_carries_frame(a);
    law_part_carries_frame(b);
}

/// The number that the digits from `from` up to `to` stand for, read off the
/// bytes.
pub open spec fn number_in(bytes: Seq<u8>, from: int, to: int) -> int
    decreases to - from,
{
    if to <= from {
        0
    } else {
        10 * number_in(bytes, from, to - 1) + (bytes[to - 1] - 48)
    }
}

/// The digits of a decimal text, as bytes, are read as its number.
proof fn lemma_number_in(bytes: Seq<u8>, from: int, digits: Seq<char>)
    requires
        0 <= from,
        from + digits.len() <= bytes.len(),
        crate::decimal::all_digits(digits),
        forall|i: int| 0 <= i < digits.len() ==> bytes[from + i] == #[trigger] digits[i] as u8,
    ensures
        number_in(bytes, from, from + digits.len()) == crate::decimal::digits_value(digits),
    decreases digits.len(),
{
    if digits.len() > 0 {
        let head = digits.drop_last();
        assert(crate::decimal::all_digits(head)) by {
            assert forall|i: int| 0 <= i < head.len() implies crate::decimal::is_digit(
                #[trigger] head[i],
            ) by {
                assert(head[i] == digits[i]);
            }
        }
        assert forall|i: int| 0 <= i < head.len() implies bytes[from + i] == #[trigger] head[i] as u8
            by {
            assert(head[i] == digits[i]);
        }
        lemma_number_in(bytes, from, head);
        let last = digits.last();
        assert(crate::decimal::is_digit(last));
        crate::decimal::law_last_digit_counts_once(head, last);
        assert(head.push(last) =~= digits);
        assert(bytes[from + digits.len() - 1] == digits[digits.len() - 1] as u8);
    }
}

/// One can read a part back. It starts with the boundary line `--frame` and the
/// header lines `Content-Type: image/jpeg` and `Content-Length`; the digits that
/// follow, without a leading zero, are the length of the frame in decimal; then
/// come an empty line, exactly as many bytes as were announced, which are those of
/// the frame, and a line end.
pub proof fn law_part_announces_its_length(frame: Seq<u8>)
    ensures
        ({
            let part = mjpeg_part(frame);
            let start = "--frame\r\nContent-Type: image/jpeg\r\nContent-Length: "@;
            let digits_end = part.len() - 6 - frame.len();
            &&& digits_end > start.len()
            &&& forall|i: int| 0 <= i < start.len() ==> #[trigger] part[i] as int == start[i] as int
            &&& forall|i: int| start.len() <= i < digits_end ==> 48 <= #[trigger] part[i] <= 57
            &&& digits_end > start.len() + 1 ==> part[start.len() as int] != 48
            &&& number_in(part, start.len() as int, digits_end) == frame.len()
            &&& part.subrange(digits_end, digits_end + 4) == seq![13u8, 10, 13, 10]
            &&& part.subrange(
                digits_end + 4,
                digits_end + 4 + number_in(part, start.len() as int, digits_end),
            ) == frame
            &&& part.subrange(part.len() - 2, part.len() as int) == seq![13u8, 10]
        }),
{
    let part = mjpeg_part(frame);
    let start = "--frame\r\nContent-Type: image/jpeg\r\nContent-Length: "@;
    let digits = crate::decimal::decimal_text(frame.len());
    reveal_strlit("--frame\r\nContent-Type: image/jpeg\r\nContent-Length: ");
    reveal_strlit("\r\n\r\n");
    reveal_strlit("\r\n");
    crate::decimal::lemma_decimal_digits(frame.len());
    crate::decimal::law_decimal_text_is_shortest(frame.len(), 0);
    let n = start.len() as int;
    let e = n + digits.len();
    assert(part.len() == e + 4 + frame.len() + 2);
    assert forall|i: int| 0 <= i < digits.len() implies part[n + i] == #[trigger] digits[i] as u8 by {}
    assert forall|i: int| n <= i < e implies 48 <= #[trigger] part[i] <= 57 by {
        assert(crate::decimal::is_digit(digits[i - n]));
        assert(part[n + (i - n)] == digits[i - n] as u8);
    }
    lemma_number_in(part, n, digits);
    assert(part[n] == digits[0] as u8);
    assert(crate::decimal::is_digit(digits[0]));
    assert(part.subrange(e, e + 4) =~= seq![13u8, 10, 13, 10]);
    assert(part.subrange(e + 4, e + 4 + frame.len()) =~= frame);
    assert(part.subrange(part.len() - 2, part.len() as int) =~= seq![13u8, 10]);
}

} // verus!

//! Text as sequences of characters: decimal numbers, trimming, searching and
//! ordering.

use vstd::prelude::*;

verus! {

/// `String::push` appends one character.
pub assume_specification[ String::push ](s: &mut String, c: char)
    ensures
        final(s)@ == old(s)@.push(c),
;

/// `char::is_whitespace` holds of the characters with the Unicode property
/// `White_Space`.
pub assume_specification[ char::is_whitespace ](c: char) -> (r: bool)
    ensures
        r == is_white_space(c),
;

/// The characters with the Unicode property `White_Space`.
pub open spec fn is_white_space(c: char) -> bool {
    ||| '\u{9}' <= c <= '\u{d}'
    ||| c == ' '
    ||| c == '\u{85}'
    ||| c == '\u{a0}'
    ||| c == '\u{1680}'
    ||| '\u{2000}' <= c <= '\u{200a}'
    ||| c == '\u{2028}'
    ||| c == '\u{2029}'
    ||| c == '\u{202f}'
    ||| c == '\u{205f}'
    ||| c == '\u{3000}'
}

/// The characters of a text.
pub fn chars_of(s: &str) -> (r: Vec<char>)
    ensures
        r@ == s@,
{
    let mut chars: Vec<char> = Vec::new();
    for c in it: s.chars()
        invariant
            it.seq() == s@,
            chars@ == s@.take(it.index()),
    {
        assert(s@.take(it.index() + 1) =~= s@.take(it.index()).push(c));
        chars.push(c);
    }
    assert(s@.take(s@.len() as int) =~= s@);
    chars
}

/// The text of the characters from `from` up to `to`.
pub fn text_of(chars: &Vec<char>, from: usize, to: usize) -> (r: String)
    requires
        from <= to <= chars@.len(),
    ensures
        r@ == chars@.subrange(from as int, to as int),
{
    let mut text = String::new();
    let mut i: usize = from;
    while i < to
        invariant
            from <= i <= to <= chars@.len(),
            text@ == chars@.subrange(from as int, i as int),
        decreases to - i,
    {
        text.push(chars[i]);
        i += 1;
        assert(text@ =~= chars@.subrange(from as int, i as int));
    }
    text
}

/// Whether two texts hold the same characters.
pub fn same_text(a: &str, b: &str) -> (r: bool)
    ensures
        r == (a@ == b@),
{
    a.to_owned() == b.to_owned()
}

/// The lower-case form of an ASCII letter; any other character is kept.
pub open spec fn ascii_lower(c: char) -> char {
    if 'A' <= c <= 'Z' {
        (c as u8 + 32) as char
    } else {
        c
    }
}

/// The upper-case form of an ASCII letter; any other character is kept.
pub open spec fn ascii_upper(c: char) -> char {
    if 'a' <= c <= 'z' {
        (c as u8 - 32) as char
    } else {
        c
    }
}

/// The text with its ASCII letters in lower case.
pub open spec fn lowered(s: Seq<char>) -> Seq<char> {
    s.map_values(|c: char| ascii_lower(c))
}

/// The text with its ASCII letters in upper case.
pub open spec fn raised(s: Seq<char>) -> Seq<char> {
    s.map_values(|c: char| ascii_upper(c))
}

/// `part` occurs somewhere in the text.
pub open spec fn has_part(s: Seq<char>, part: Seq<char>) -> bool {
    exists|i: int| part_at(s, part, i)
}

/// `part` occurs in the text at position `i`.
pub open spec fn part_at(s: Seq<char>, part: Seq<char>, i: int) -> bool {
    0 <= i && i + part.len() <= s.len() && s.subrange(i, i + part.len()) == part
}

/// The text without the white space at its start.
pub open spec fn without_leading_space(s: Seq<char>) -> Seq<char>
    decreases s.len(),
{
    if s.len() > 0 && is_white_space(s[0]) {
        without_leading_space(s.skip(1))
    } else {
        s
    }
}

/// The text without the white space at its end.
pub open spec fn without_trailing_space(s: Seq<char>) -> Seq<char>
    decreases s.len(),
{
    if s.len() > 0 && is_white_space(s.last()) {
        without_trailing_space(s.drop_last())
    } else {
        s
    }
}

/// The text without the white space at both ends.
pub open spec fn trimmed(s: Seq<char>) -> Seq<char> {
    without_trailing_space(without_leading_space(s))
}

/// Turns ASCII letters to lower case.
pub fn ascii_lowercase(s: &str) -> (r: String)
    ensures
        r@ == lowered(s@),
{
    let mut text = String::new();
    for c in it: s.chars()
        invariant
            it.seq() == s@,
            text@ == lowered(s@.take(it.index())),
    {
        assert(s@.take(it.index() + 1) =~= s@.take(it.index()).push(c));
        let lower: char = if 'A' <= c && c <= 'Z' {
            (c as u8 + 32) as char
        } else {
            c
        };
        text.push(lower);
        assert(text@ =~= lowered(s@.take(it.index() + 1)));
    }
    assert(s@.take(s@.len() as int) =~= s@);
    text
}

/// Whether `part` occurs in the text.
pub fn contains_text(s: &str, part: &str) -> (r: bool)
    ensures
        r == has_part(s@, part@),
{
    let whole: Vec<char> = chars_of(s);
    let piece: Vec<char> = chars_of(part);
    if piece.len() > whole.len() {
        assert(forall|j: int| !part_at(s@, part@, j));
        return false;
    }
    let last: usize = whole.len() - piece.len();
    let mut i: usize = 0;
    while i < last
        invariant
            whole@ == s@,
            piece@ == part@,
            i <= last,
            last + piece@.len() == whole@.len(),
            forall|j: int| 0 <= j < i ==> !part_at(s@, part@, j),
        decreases last - i,
    {
        if matches_at(&whole, &piece, i) {
            return true;
        }
        i += 1;
    }
    let found: bool = matches_at(&whole, &piece, last);
    assert(!found ==> forall|j: int| !part_at(s@, part@, j));
    found
}

/// Whether `piece` stands in `whole` at position `i`.
fn matches_at(whole: &Vec<char>, piece: &Vec<char>, i: usize) -> (r: bool)
    requires
        i + piece@.len() <= whole@.len(),
    ensures
        r == part_at(whole@, piece@, i as int),
{
    let whole_len: usize = whole.len();
    let mut k: usize = 0;
    while k < piece.len()
        invariant
            k <= piece@.len(),
            whole_len == whole@.len(),
            i + piece@.len() <= whole_len,
            forall|j: int| 0 <= j < k ==> whole@[i + j] == piece@[j],
        decreases piece@.len() - k,
    {
        if whole[i + k] != piece[k] {
            assert(whole@.subrange(i as int, i + piece@.len())[k as int] != piece@[k as int]);
            return false;
        }
        k += 1;
    }
    assert(whole@.subrange(i as int, i + piece@.len()) =~= piece@);
    true
}

/// Whether the text starts with `prefix`.
pub fn starts_with_text(s: &str, prefix: &str) -> (r: bool)
    ensures
        r == prefix@.is_prefix_of(s@),
{
    let whole: Vec<char> = chars_of(s);
    let piece: Vec<char> = chars_of(prefix);
    piece.len() <= whole.len() && matches_at(&whole, &piece, 0)
}

/// Takes the white space off both ends.
pub fn trim_text(s: &str) -> (r: String)
    ensures
        r@ == trimmed(s@),
{
    let chars: Vec<char> = chars_of(s);
    let mut from: usize = 0;
    assert(chars@.skip(0) =~= chars@);
    while from < chars.len() && chars[from].is_whitespace()
        invariant
            chars@ == s@,
            from <= chars@.len(),
            without_leading_space(chars@.skip(from as int)) == without_leading_space(s@),
        decreases chars@.len() - from,
    {
        assert(chars@.skip(from as int).skip(1) =~= chars@.skip(from + 1));
        from += 1;
    }
    let ghost rest = without_leading_space(s@);
    assert(rest == chars@.skip(from as int));
    let mut to: usize = chars.len();
    assert(chars@.subrange(from as int, to as int) =~= rest);
    while from < to && chars[to - 1].is_whitespace()
        invariant
            chars@ == s@,
            from <= to <= chars@.len(),
            without_trailing_space(chars@.subrange(from as int, to as int))
                == without_trailing_space(rest),
        decreases to - from,
    {
        assert(chars@.subrange(from as int, to as int).drop_last() =~= chars@.subrange(
            from as int,
            to - 1,
        ));
        to -= 1;
    }
    text_of(&chars, from, to)
}

/// The texts of a list of strings.
pub open spec fn texts(list: Seq<String>) -> Seq<Seq<char>> {
    list.map_values(|s: String| s@)
}

/// Lexicographic order by code point.
pub open spec fn text_le(a: Seq<char>, b: Seq<char>) -> bool
    decreases a.len(),
{
    if a.len() == 0 {
        true
    } else if b.len() == 0 {
        false
    } else if a[0] == b[0] {
        text_le(a.skip(1), b.skip(1))
    } else {
        a[0] < b[0]
    }
}

/// Every text comes before those that follow it.
pub open spec fn in_order(list: Seq<Seq<char>>) -> bool {
    forall|i: int, j: int| 0 <= i < j < list.len() ==> text_le(list[i], list[j])
}

/// The order of texts is total.
pub proof fn lemma_text_le_total(a: Seq<char>, b: Seq<char>)
    ensures
        text_le(a, b) || text_le(b, a),
    decreases a.len(),
{
    if a.len() > 0 && b.len() > 0 && a[0] == b[0] {
        lemma_text_le_total(a.skip(1), b.skip(1));
    }
}

/// The order of texts is transitive.
pub proof fn lemma_text_le_transitive(a: Seq<char>, b: Seq<char>, c: Seq<char>)
    requires
        text_le(a, b),
        text_le(b, c),
    ensures
        text_le(a, c),
    decreases a.len(),
{
    if a.len() > 0 && b.len() > 0 && c.len() > 0 && a[0] == b[0] && b[0] == c[0] {
        lemma_text_le_transitive(a.skip(1), b.skip(1), c.skip(1));
    }
}

/// Compares two texts in lexicographic order.
pub fn text_at_most(a: &str, b: &str) -> (r: bool)
    ensures
        r == text_le(a@, b@),
{
    let left: Vec<char> = chars_of(a);
    let right: Vec<char> = chars_of(b);
    let mut i: usize = 0;
    assert(left@.skip(0) =~= left@ && right@.skip(0) =~= right@);
    while i < left.len()
        invariant
            left@ == a@,
            right@ == b@,
            i <= left@.len(),
            i <= right@.len(),
            text_le(a@, b@) == text_le(left@.skip(i as int), right@.skip(i as int)),
        decreases left@.len() - i,
    {
        if i == right.len() {
            return false;
        }
        if left[i] != right[i] {
            return left[i] < right[i];
        }
        assert(left@.skip(i as int).skip(1) =~= left@.skip(i + 1));
        assert(right@.skip(i as int).skip(1) =~= right@.skip(i + 1));
        i += 1;
    }
    true
}

/// Puts an item into an ordered list, behind the items that come before it.
fn insert_text(list: &mut Vec<String>, item: String)
    requires
        in_order(texts(old(list)@)),
    ensures
        in_order(texts(final(list)@)),
        texts(final(list)@).to_multiset() == texts(old(list)@).to_multiset().insert(item@),
{
    let mut i: usize = 0;
    while i < list.len() && text_at_most(list[i].as_str(), item.as_str())
        invariant
            *list == *old(list),
            i <= list@.len(),
            forall|j: int| 0 <= j < i ==> text_le(#[trigger] list@[j]@, item@),
        decreases list@.len() - i,
    {
        i += 1;
    }
    let ghost before = texts(list@);
    let ghost at = i as int;
    let ghost text = item@;
    proof {
        if at < list@.len() {
            lemma_text_le_total(before[at], text);
        }
        assert forall|j: int| at <= j < before.len() implies text_le(
            text,
            #[trigger] before[j],
        ) by {
            if j > at {
                lemma_text_le_transitive(text, before[at], before[j]);
            }
        }
        vstd::seq_lib::to_multiset_insert(before, at, text);
    }
    list.insert(i, item);
    assert(texts(list@) =~= before.insert(at, text));
}

/// Sorts a list of strings in lexicographic order.
pub fn sort_texts(list: Vec<String>) -> (r: Vec<String>)
    ensures
        in_order(texts(r@)),
        texts(r@).to_multiset() == texts(list@).to_multiset(),
{
    let mut sorted: Vec<String> = Vec::new();
    let mut i: usize = 0;
    assert(texts(sorted@) =~= texts(list@.take(0)));
    while i < list.len()
        invariant
            i <= list@.len(),
            in_order(texts(sorted@)),
            texts(sorted@).to_multiset() == texts(list@.take(i as int)).to_multiset(),
        decreases list@.len() - i,
    {
        proof {
            assert(texts(list@.take(i + 1)) =~= texts(list@.take(i as int)).push(list@[i as int]@));
            vstd::seq_lib::to_multiset_build(texts(list@.take(i as int)), list@[i as int]@);
        }
        insert_text(&mut sorted, list[i].clone());
        i += 1;
    }
    assert(list@.take(list@.len() as int) =~= list@);
    sorted
}

/// Turning a text to lower case keeps its length, moves the letters `A` to `Z` by
/// 32 code points to `a` to `z`, and keeps every other character.
pub proof fn law_lower_case_by_letter(s: Seq<char>, i: int)
    requires
        0 <= i < s.len(),
    ensures
        lowered(s).len() == s.len(),
        65 <= s[i] as int <= 90 ==> lowered(s)[i] as int == s[i] as int + 32,
        !(65 <= s[i] as int <= 90) ==> lowered(s)[i] == s[i],
{
}

/// Turning a text to upper case keeps its length, moves the letters `a` to `z` by
/// 32 code points to `A` to `Z`, and keeps every other character.
pub proof fn law_upper_case_by_letter(s: Seq<char>, i: int)
    requires
        0 <= i < s.len(),
    ensures
        raised(s).len() == s.len(),
        97 <= s[i] as int <= 122 ==> raised(s)[i] as int == s[i] as int - 32,
        !(97 <= s[i] as int <= 122) ==> raised(s)[i] == s[i],
{
}

/// A text has a part exactly where it is made of something, the part, and
/// something behind it.
pub proof fn law_part_stands_between(before: Seq<char>, part: Seq<char>, after: Seq<char>)
    ensures
        has_part(before + part + after, part),
{
    let s = before + part + after;
    let i = before.len() as int;
    assert(s.subrange(i, i + part.len()) =~= part);
    assert(part_at(s, part, i));
}

/// Where a text has a part, the characters of the part follow each other in it.
pub proof fn law_part_is_in_text(s: Seq<char>, part: Seq<char>) -> (at: int)
    requires
        has_part(s, part),
    ensures
        0 <= at,
        at + part.len() <= s.len(),
        forall|k: int| 0 <= k < part.len() ==> s[at + k] == #[trigger] part[k],
{
    let at = choose|i: int| part_at(s, part, i);
    let found = s.subrange(at, at + part.len());
    assert forall|k: int| 0 <= k < part.len() implies s[at + k] == #[trigger] part[k] by {
        assert(found[k] == part[k]);
    }
    at
}

/// Of the ASCII characters the tab, the line feed, the vertical tab, the form
/// feed, the carriage return and the space are white space.
pub proof fn law_ascii_white_space(c: char)
    requires
        c as int <= 127,
    ensures
        is_white_space(c) <==> 9 <= c as int <= 13 || c as int == 32,
{
}

/// The text from `from` up to `to` is what is left without white space around it.
pub open spec fn is_core(s: Seq<char>, from: int, to: int) -> bool {
    &&& 0 <= from <= to <= s.len()
    &&& forall|i: int| 0 <= i < from ==> is_white_space(#[trigger] s[i])
    &&& forall|i: int| to <= i < s.len() ==> is_white_space(#[trigger] s[i])
    &&& from < to ==> !is_white_space(s[from]) && !is_white_space(s[to - 1])
}

proof fn lemma_leading_space(s: Seq<char>) -> (from: int)
    ensures
        0 <= from <= s.len(),
        without_leading_space(s) == s.skip(from),
        forall|i: int| 0 <= i < from ==> is_white_space(#[trigger] s[i]),
        from < s.len() ==> !is_white_space(s[from]),
    decreases s.len(),
{
    if s.len() > 0 && is_white_space(s[0]) {
        let rest = s.skip(1);
        let n = lemma_leading_space(rest);
        assert(rest.skip(n) =~= s.skip(n + 1));
        assert forall|i: int| 0 <= i < n + 1 implies is_white_space(#[trigger] s[i]) by {
            if i > 0 {
                assert(rest[i - 1] == s[i]);
            }
        }
        if n < rest.len() {
            assert(rest[n] == s[n + 1]);
        }
        n + 1
    } else {
        assert(s.skip(0) =~= s);
        0
    }
}

proof fn lemma_trailing_space(s: Seq<char>) -> (to: int)
    ensures
        0 <= to <= s.len(),
        without_trailing_space(s) == s.take(to),
        forall|i: int| to <= i < s.len() ==> is_white_space(#[trigger] s[i]),
        to > 0 ==> !is_white_space(s[to - 1]),
    decreases s.len(),
{
    if s.len() > 0 && is_white_space(s.last()) {
        let rest = s.drop_last();
        let n = lemma_trailing_space(rest);
        assert(rest.take(n) =~= s.take(n));
        assert forall|i: int| n <= i < s.len() implies is_white_space(#[trigger] s[i]) by {
            if i < s.len() - 1 {
                assert(rest[i] == s[i]);
            }
        }
        n
    } else {
        assert(s.take(s.len() as int) =~= s);
        s.len() as int
    }
}

/// Trimming takes off white space and nothing else: what is left is one stretch of
/// the text, with only white space in front of it and behind it, and it neither
/// starts nor ends with white space.
pub proof fn law_trimming_takes_white_space_off(s: Seq<char>) -> (ends: (int, int))
    ensures
        is_core(s, ends.0, ends.1),
        trimmed(s) == s.subrange(ends.0, ends.1),
{
    let from = lemma_leading_space(s);
    let rest = s.skip(from);
    let n = lemma_trailing_space(rest);
    assert(rest.take(n) =~= s.subrange(from, from + n));
    assert forall|i: int| from + n <= i < s.len() implies is_white_space(#[trigger] s[i]) by {
        assert(rest[i - from] == s[i]);
    }
    if n > 0 {
        assert(rest[n - 1] == s[from + n - 1]);
    }
    (from, from + n)
}

/// Two texts that agree up to a position are ordered by the characters that they
/// have there: the lower code point comes first.
pub proof fn law_first_difference_decides(a: Seq<char>, b: Seq<char>, n: int)
    requires
        0 <= n < a.len(),
        n < b.len(),
        forall|i: int| 0 <= i < n ==> #[trigger] a[i] == b[i],
        a[n] != b[n],
    ensures
        text_le(a, b) <==> (a[n] as int) < (b[n] as int),
    decreases n,
{
    if n > 0 {
        assert(a[0] == b[0]);
        let ta = a.skip(1);
        let tb = b.skip(1);
        assert forall|i: int| 0 <= i < n - 1 implies #[trigger] ta[i] == tb[i] by {
            assert(a[i + 1] == b[i + 1]);
        }
        law_first_difference_decides(ta, tb, n - 1);
    }
}

/// A text comes before every text that it starts, and after none of them but
/// itself.
pub proof fn law_shorter_comes_first(a: Seq<char>, more: Seq<char>)
    ensures
        text_le(a, a + more),
        text_le(a + more, a) <==> more.len() == 0,
    decreases a.len(),
{
    let b = a + more;
    if a.len() > 0 {
        assert(a[0] == b[0]);
        assert(b.skip(1) =~= a.skip(1) + more);
        law_shorter_comes_first(a.skip(1), more);
    }
}

/// A list that is in order has no text in front of a lower one.
pub proof fn law_order_of_list(list: Seq<Seq<char>>, i: int, j: int)
    requires
        in_order(list),
        0 <= i < j < list.len(),
    ensures
        text_le(list[i], list[j]),
{
}

/// The texts of a list of strings are those of its strings, in their places.
pub proof fn law_texts_of_list(list: Seq<String>, i: int)
    requires
        0 <= i < list.len(),
    ensures
        texts(list).len() == list.len(),
        texts(list)[i] == list[i]@,
{
}

/// Trimming keeps a text that neither starts nor ends with white space.
pub proof fn law_plain_text_is_kept(s: Seq<char>)
    requires
        s.len() > 0,
        !is_white_space(s[0]),
        !is_white_space(s.last()),
    ensures
        trimmed(s) == s,
{
    assert(without_leading_space(s) == s);
}

} // verus!

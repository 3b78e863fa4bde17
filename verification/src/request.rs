//! What a request says of a camera, in its query string and its headers.

use vstd::prelude::*;

use http::HeaderMap;
use http::HeaderValue;

use crate::decimal::parse_decimal;
use crate::error::CameraManagerError;
use crate::error::ErrorModel;
use crate::text::chars_of;
use crate::text::same_text;
use crate::text::text_of;

verus! {

/// `http::HeaderMap`, the headers of a request.
#[verifier::external_type_specification]
#[verifier::external_body]
#[verifier::reject_recursive_types(T)]
pub struct ExHeaderMap<T>(http::HeaderMap<T>);

/// `http::HeaderValue`, the value of a header.
#[verifier::external_type_specification]
#[verifier::external_body]
pub struct ExHeaderValue(http::HeaderValue);

/// The headers by name, in lower case, with the bytes of the first value under
/// each name.
pub uninterp spec fn header_entries(headers: http::HeaderMap<http::HeaderValue>) -> Map<
    Seq<char>,
    Seq<u8>,
>;

/// The bytes of a header value.
pub uninterp spec fn value_bytes(value: http::HeaderValue) -> Seq<u8>;

/// `HeaderMap::get` finds the first value under a name, whatever the case of
/// its letters.
#[verifier::external_body]
fn first_value<'a>(headers: &'a HeaderMap<HeaderValue>, name: &str) -> (r: Option<&'a HeaderValue>)
    ensures
        match r {
            Some(value) => {
                &&& header_entries(*headers).contains_key(crate::text::lowered(name@))
                &&& value_bytes(*value) == header_entries(*headers)[crate::text::lowered(name@)]
            },
            None => !header_entries(*headers).contains_key(crate::text::lowered(name@)),
        },
{
    headers.get(name)
}

/// `HeaderMap::contains_key` tells whether there is a value under a name,
/// whatever the case of its letters.
#[verifier::external_body]
fn has_header(headers: &HeaderMap<HeaderValue>, name: &str) -> (r: bool)
    ensures
        r == header_entries(*headers).contains_key(crate::text::lowered(name@)),
{
    headers.contains_key(name)
}

/// A byte that may stand in a header value read as text: a printable ASCII
/// character, a space or a tab.
pub open spec fn is_visible(b: u8) -> bool {
    32 <= b < 127 || b == 9
}

/// The text of a header value, where all its bytes are visible ASCII.
pub open spec fn visible_text(bytes: Seq<u8>) -> Option<Seq<char>> {
    if forall|i: int| 0 <= i < bytes.len() ==> is_visible(#[trigger] bytes[i]) {
        Some(bytes.map_values(|b: u8| b as char))
    } else {
        None
    }
}

/// The value of an optional string.
pub open spec fn text_view(s: Option<&str>) -> Option<Seq<char>> {
    match s {
        Some(text) => Some(text@),
        None => None,
    }
}

/// The value of an optional owned string.
pub open spec fn string_view(s: Option<String>) -> Option<Seq<char>> {
    match s {
        Some(text) => Some(text@),
        None => None,
    }
}

/// `HeaderValue::to_str` gives the value as text where all its bytes are
/// visible ASCII, and fails else.
#[verifier::external_body]
fn value_text(value: &HeaderValue) -> (r: Option<&str>)
    ensures
        text_view(r) == visible_text(value_bytes(*value)),
{
    value.to_str().ok()
}

/// The parameters of a query string. Of parameters with the same name the last
/// one counts.
#[derive(Debug)]
pub struct Query {
    entries: Vec<(String, String)>,
}

/// The parameters after each of a row of assignments.
pub open spec fn assigned(entries: Seq<(Seq<char>, Seq<char>)>) -> Map<Seq<char>, Seq<char>>
    decreases entries.len(),
{
    if entries.len() == 0 {
        Map::empty()
    } else {
        assigned(entries.drop_last()).insert(entries.last().0, entries.last().1)
    }
}

impl View for Query {
    type V = Map<Seq<char>, Seq<char>>;

    closed spec fn view(&self) -> Map<Seq<char>, Seq<char>> {
        assigned(self.pairs())
    }
}

impl Query {
    spec fn pairs(&self) -> Seq<(Seq<char>, Seq<char>)> {
        self.entries@.map_values(|e: (String, String)| (e.0@, e.1@))
    }

    /// A query without parameters.
    pub fn new() -> (r: Self)
        ensures
            r@ == Map::<Seq<char>, Seq<char>>::empty(),
    {
        let query = Query { entries: Vec::new() };
        assert(query.pairs() =~= Seq::empty());
        query
    }

    /// Sets a parameter.
    pub fn insert(&mut self, name: String, value: String)
        ensures
            final(self)@ == old(self)@.insert(name@, value@),
    {
        let ghost before = self.pairs();
        let ghost pair = (name@, value@);
        self.entries.push((name, value));
        proof {
            assert(self.pairs() =~= before.push(pair));
            assert(before.push(pair).drop_last() =~= before);
        }
    }

    /// The value of a parameter.
    pub fn get(&self, name: &str) -> (r: Option<&str>)
        ensures
            text_view(r) == (if self@.contains_key(name@) {
                Some(self@[name@])
            } else {
                None
            }),
    {
        let mut i: usize = self.entries.len();
        assert(self.pairs().take(i as int) =~= self.pairs());
        while i > 0
            invariant
                i <= self.entries@.len(),
                self@.contains_key(name@) == assigned(self.pairs().take(i as int)).contains_key(
                    name@,
                ),
                self@.contains_key(name@) ==> self@[name@] == assigned(
                    self.pairs().take(i as int),
                )[name@],
            decreases i,
        {
            let ghost taken = self.pairs().take(i as int);
            assert(taken.drop_last() =~= self.pairs().take(i - 1));
            assert(taken.last() == (self.entries@[i - 1].0@, self.entries@[i - 1].1@));
            i -= 1;
            if same_text(self.entries[i].0.as_str(), name) {
                return Some(self.entries[i].1.as_str());
            }
        }
        None
    }
}

/// What a request says of a field: the query parameter, or else the text of
/// the header.
pub open spec fn requested(
    query: Map<Seq<char>, Seq<char>>,
    headers: Map<Seq<char>, Seq<u8>>,
    parameter: Seq<char>,
    header: Seq<char>,
) -> Option<Seq<char>> {
    if query.contains_key(parameter) {
        Some(query[parameter])
    } else if headers.contains_key(crate::text::lowered(header)) {
        visible_text(headers[crate::text::lowered(header)])
    } else {
        None
    }
}

/// Looks a field up in the query and then in the headers.
pub fn value_from_request(
    query: &Query,
    headers: &HeaderMap<HeaderValue>,
    query_key: &str,
    header_key: &str,
) -> (r: Option<String>)
    ensures
        string_view(r) == requested(query@, header_entries(*headers), query_key@, header_key@),
{
    match query.get(query_key) {
        Some(value) => Some(value.to_owned()),
        None => match first_value(headers, header_key) {
            Some(value) => match value_text(value) {
                Some(text) => Some(text.to_owned()),
                None => None,
            },
            None => None,
        },
    }
}

/// The request names at least one field of a camera configuration.
pub open spec fn names_bootstrap(
    query: Map<Seq<char>, Seq<char>>,
    headers: Map<Seq<char>, Seq<u8>>,
) -> bool {
    ||| query.contains_key("node"@)
    ||| query.contains_key("resolution"@)
    ||| query.contains_key("framerate"@)
    ||| query.contains_key("capture_encoding"@)
    ||| headers.contains_key("x-node"@)
    ||| headers.contains_key("x-resolution"@)
    ||| headers.contains_key("x-framerate"@)
    ||| headers.contains_key("x-capture-encoding"@)
}

/// The names of the configuration headers are in lower case.
pub proof fn lemma_header_names_lower()
    ensures
        crate::text::lowered("x-node"@) == "x-node"@,
        crate::text::lowered("x-resolution"@) == "x-resolution"@,
        crate::text::lowered("x-framerate"@) == "x-framerate"@,
        crate::text::lowered("x-capture-encoding"@) == "x-capture-encoding"@,
{
    reveal_strlit("x-node");
    reveal_strlit("x-resolution");
    reveal_strlit("x-framerate");
    reveal_strlit("x-capture-encoding");
    assert(crate::text::lowered("x-node"@) =~= "x-node"@);
    assert(crate::text::lowered("x-resolution"@) =~= "x-resolution"@);
    assert(crate::text::lowered("x-framerate"@) =~= "x-framerate"@);
    assert(crate::text::lowered("x-capture-encoding"@) =~= "x-capture-encoding"@);
}

/// Whether the request names any field of a camera configuration. A header
/// counts even where its value is no text.
pub fn has_bootstrap(query: &Query, headers: &HeaderMap<HeaderValue>) -> (r: bool)
    ensures
        r == names_bootstrap(query@, header_entries(*headers)),
{
    proof {
        lemma_header_names_lower();
    }
    query.get("node").is_some() || query.get("resolution").is_some() || query.get(
        "framerate",
    ).is_some() || query.get("capture_encoding").is_some() || has_header(headers, "x-node")
        || has_header(headers, "x-resolution") || has_header(headers, "x-framerate")
        || has_header(headers, "x-capture-encoding")
}

/// The width and the height that a text stands for: two numbers with the first
/// `x` of the text between them.
pub open spec fn resolution(s: Seq<char>) -> Option<(u32, u32)> {
    match s.index_of_first('x') {
        Some(i) => match (
            crate::decimal::parsed(s.take(i), u32::MAX as nat),
            crate::decimal::parsed(s.skip(i + 1), u32::MAX as nat),
        ) {
            (Some(width), Some(height)) => Some((width as u32, height as u32)),
            _ => None,
        },
        None => None,
    }
}

/// The text of a width and a height.
pub open spec fn resolution_text(width: u32, height: u32) -> Seq<char> {
    crate::decimal::decimal_text(width as nat) + "x"@ + crate::decimal::decimal_text(height as nat)
}

/// Reads a width and a height.
pub fn parse_resolution(value: &str) -> (r: Result<(u32, u32), CameraManagerError>)
    ensures
        match resolution(value@) {
            Some(size) => r == Ok::<(u32, u32), CameraManagerError>(size),
            None => r matches Err(error) && error@ == ErrorModel::InvalidBootstrapField(
                "resolution"@,
            ),
        },
{
    let chars: Vec<char> = chars_of(value);
    let mut i: usize = 0;
    while i < chars.len() && chars[i] != 'x'
        invariant
            i <= chars@.len(),
            forall|j: int| 0 <= j < i ==> chars@[j] != 'x',
        decreases chars@.len() - i,
    {
        i += 1;
    }
    proof {
        value@.index_of_first_ensures('x');
    }
    if i == chars.len() {
        return Err(CameraManagerError::InvalidBootstrapField("resolution"));
    }
    assert(value@.index_of_first('x') == Some(i as int)) by {
        assert(value@[i as int] == 'x');
    }
    let left: String = text_of(&chars, 0, i);
    let right: String = text_of(&chars, i + 1, chars.len());
    assert(left@ =~= value@.take(i as int));
    assert(right@ =~= value@.skip(i + 1));
    let width: Option<u64> = parse_decimal(left.as_str(), u32::MAX as u64);
    let height: Option<u64> = parse_decimal(right.as_str(), u32::MAX as u64);
    match (width, height) {
        (Some(width), Some(height)) => Ok((width as u32, height as u32)),
        _ => Err(CameraManagerError::InvalidBootstrapField("resolution")),
    }
}

/// Reading the text of a width and a height gives them back.
pub proof fn law_resolution_round_trip(width: u32, height: u32)
    ensures
        resolution(resolution_text(width, height)) == Some((width, height)),
{
    let s = resolution_text(width, height);
    let w = crate::decimal::decimal_text(width as nat);
    let h = crate::decimal::decimal_text(height as nat);
    reveal_strlit("x");
    crate::decimal::law_decimal_round_trip(width as nat, u32::MAX as nat);
    crate::decimal::law_decimal_round_trip(height as nat, u32::MAX as nat);
    crate::decimal::lemma_decimal_digits(width as nat);
    s.index_of_first_ensures('x');
    let n = w.len() as int;
    assert(s[n] == 'x');
    assert(s.contains('x'));
    let i = s.index_of_first('x').unwrap();
    if i < n {
        assert(crate::decimal::is_digit(w[i]));
    }
    assert(i == n);
    assert(s.take(i) =~= w);
    assert(s.skip(i + 1) =~= h);
}

/// A query parameter wins over its header.
pub proof fn law_query_wins_over_header(
    query: Map<Seq<char>, Seq<char>>,
    headers: Map<Seq<char>, Seq<u8>>,
    parameter: Seq<char>,
    header: Seq<char>,
)
    requires
        query.contains_key(parameter),
    ensures
        requested(query, headers, parameter, header) == Some(query[parameter]),
{
}

/// A header whose value is text says the same as a query parameter with that
/// text, whatever the headers then are.
pub proof fn law_query_and_header_are_equivalent(
    query: Map<Seq<char>, Seq<char>>,
    headers: Map<Seq<char>, Seq<u8>>,
    others: Map<Seq<char>, Seq<u8>>,
    parameter: Seq<char>,
    header: Seq<char>,
    text: Seq<char>,
)
    requires
        !query.contains_key(parameter),
        headers.contains_key(crate::text::lowered(header)),
        visible_text(headers[crate::text::lowered(header)]) == Some(text),
    ensures
        requested(query, headers, parameter, header) == requested(
            query.insert(parameter, text),
            others,
            parameter,
            header,
        ),
{
}

/// A field is what the request says of it: the query parameter, where the query
/// has it; else the text of the header, where the headers have it and all its bytes
/// are printable ASCII, spaces or tabs; else nothing.
pub open spec fn is_said(
    field: Option<Seq<char>>,
    query: Map<Seq<char>, Seq<char>>,
    headers: Map<Seq<char>, Seq<u8>>,
    parameter: Seq<char>,
    header: Seq<char>,
) -> bool {
    let bytes = headers[header];
    if query.contains_key(parameter) {
        field == Some(query[parameter])
    } else if headers.contains_key(header) && forall|i: int|
        0 <= i < bytes.len() ==> 32 <= #[trigger] bytes[i] <= 126 || bytes[i] == 9 {
        field matches Some(text) && text.len() == bytes.len() && forall|i: int|
            0 <= i < bytes.len() ==> #[trigger] text[i] as int == bytes[i] as int
    } else {
        field is None
    }
}

/// What is looked up under a parameter and a header, whose name is in lower case,
/// is what the request says of it.
pub proof fn law_lookup_finds_what_is_said(
    query: Map<Seq<char>, Seq<char>>,
    headers: Map<Seq<char>, Seq<u8>>,
    parameter: Seq<char>,
    header: Seq<char>,
)
    requires
        forall|i: int| 0 <= i < header.len() ==> !('A' <= #[trigger] header[i] <= 'Z'),
    ensures
        is_said(requested(query, headers, parameter, header), query, headers, parameter, header),
{
    assert(crate::text::lowered(header) =~= header);
    let bytes = headers[header];
    if forall|i: int| 0 <= i < bytes.len() ==> 32 <= #[trigger] bytes[i] <= 126 || bytes[i] == 9 {
        assert forall|i: int| 0 <= i < bytes.len() implies is_visible(#[trigger] bytes[i]) by {}
    } else {
        let i = choose|i: int|
            0 <= i < bytes.len() && !(32 <= #[trigger] bytes[i] <= 126 || bytes[i] == 9);
        assert(!is_visible(bytes[i]));
    }
}

/// The name of a header may be written in any case of letters.
pub proof fn law_header_case_does_not_matter(
    query: Map<Seq<char>, Seq<char>>,
    headers: Map<Seq<char>, Seq<u8>>,
    parameter: Seq<char>,
    header: Seq<char>,
)
    ensures
        requested(query, headers, parameter, header) == requested(
            query,
            headers,
            parameter,
            crate::text::lowered(header),
        ),
{
    let lower = crate::text::lowered(header);
    assert(crate::text::lowered(lower) =~= lower);
}

/// A request configures a camera where it has one of the four parameters or one of
/// the four headers, whatever stands in it and whatever else it has.
pub proof fn law_any_field_is_bootstrap(
    query: Map<Seq<char>, Seq<char>>,
    headers: Map<Seq<char>, Seq<u8>>,
    value: Seq<char>,
    bytes: Seq<u8>,
)
    ensures
        names_bootstrap(query.insert("node"@, value), headers),
        names_bootstrap(query.insert("resolution"@, value), headers),
        names_bootstrap(query.insert("framerate"@, value), headers),
        names_bootstrap(query.insert("capture_encoding"@, value), headers),
        names_bootstrap(query, headers.insert("x-node"@, bytes)),
        names_bootstrap(query, headers.insert("x-resolution"@, bytes)),
        names_bootstrap(query, headers.insert("x-framerate"@, bytes)),
        names_bootstrap(query, headers.insert("x-capture-encoding"@, bytes)),
{
    assert(query.insert("node"@, value).contains_key("node"@));
    assert(query.insert("resolution"@, value).contains_key("resolution"@));
    assert(query.insert("framerate"@, value).contains_key("framerate"@));
    assert(query.insert("capture_encoding"@, value).contains_key("capture_encoding"@));
    assert(headers.insert("x-node"@, bytes).contains_key("x-node"@));
    assert(headers.insert("x-resolution"@, bytes).contains_key("x-resolution"@));
    assert(headers.insert("x-framerate"@, bytes).contains_key("x-framerate"@));
    assert(headers.insert("x-capture-encoding"@, bytes).contains_key("x-capture-encoding"@));
}

/// Nothing else configures a camera: without these parameters and headers a
/// request does not, and one more parameter or header of another name makes no
/// difference.
pub proof fn law_nothing_else_is_bootstrap(
    query: Map<Seq<char>, Seq<char>>,
    headers: Map<Seq<char>, Seq<u8>>,
    name: Seq<char>,
    value: Seq<char>,
    header: Seq<char>,
    bytes: Seq<u8>,
)
    requires
        name != "node"@,
        name != "resolution"@,
        name != "framerate"@,
        name != "capture_encoding"@,
        header != "x-node"@,
        header != "x-resolution"@,
        header != "x-framerate"@,
        header != "x-capture-encoding"@,
    ensures
        !names_bootstrap(Map::empty(), Map::empty()),
        names_bootstrap(query, headers) ==> !query.dom().disjoint(
            set!["node"@, "resolution"@, "framerate"@, "capture_encoding"@],
        ) || !headers.dom().disjoint(
            set!["x-node"@, "x-resolution"@, "x-framerate"@, "x-capture-encoding"@],
        ),
        names_bootstrap(query.insert(name, value), headers.insert(header, bytes))
            == names_bootstrap(query, headers),
{
}

/// A resolution is read as the two numbers on the two sides of the first `x` of the
/// text: the width before it, the height behind it, each of at most 32 bits. Where
/// one of them is no such number, the text is no resolution.
pub proof fn law_resolution_is_two_numbers(width: Seq<char>, height: Seq<char>)
    requires
        forall|i: int| 0 <= i < width.len() ==> #[trigger] width[i] != 'x',
    ensures
        ({
            let w = crate::decimal::parsed(width, 0xffff_ffff);
            let h = crate::decimal::parsed(height, 0xffff_ffff);
            let size = resolution(width + seq!['x'] + height);
            &&& size is Some <==> w is Some && h is Some
            &&& size matches Some((across, down)) ==> w == Some(across as nat) && h == Some(
                down as nat,
            )
        }),
{
    let s = width + seq!['x'] + height;
    let n = width.len() as int;
    s.index_of_first_ensures('x');
    assert(s[n] == 'x');
    assert(s.contains('x'));
    let i = s.index_of_first('x').unwrap();
    if i < n {
        assert(s[i] == width[i]);
    }
    assert(i == n);
    assert(s.take(n) =~= width);
    assert(s.skip(n + 1) =~= height);
}

/// A text without an `x` is no resolution.
pub proof fn law_resolution_needs_x(s: Seq<char>)
    requires
        forall|i: int| 0 <= i < s.len() ==> #[trigger] s[i] != 'x',
    ensures
        resolution(s) is None,
{
    s.index_of_first_ensures('x');
    assert(!s.contains('x'));
}

/// A width and a height are written as their decimal texts with an `x` between.
pub proof fn law_resolution_text(width: u32, height: u32)
    ensures
        resolution_text(width, height) == crate::decimal::decimal_text(width as nat) + seq!['x']
            + crate::decimal::decimal_text(height as nat),
{
    reveal_strlit("x");
    assert("x"@ =~= seq!['x']);
}

/// An optional text has the value of its text, where it is there.
pub proof fn law_optional_text_value(text: &str, owned: String)
    ensures
        text_view(Some(text)) == Some(text@),
        text_view(None) is None,
        string_view(Some(owned)) == Some(owned@),
        string_view(None) is None,
{
}

} // verus!

//! The configuration of a camera.

use vstd::prelude::*;

use http::HeaderMap;
use http::HeaderValue;

use crate::decimal::parse_decimal;
use crate::error::CameraManagerError;
use crate::error::ErrorModel;
use crate::request::parse_resolution;
use crate::request::value_from_request;
use crate::request::Query;
use crate::text::chars_of;

verus! {

/// How a camera is captured.
#[derive(Debug)]
pub struct CameraConfig {
    pub camera_id: String,
    pub node: String,
    pub width: u32,
    pub height: u32,
    pub framerate: u32,
    pub capture_encoding: String,
    /// Left out of the comparison of configurations, so that changing it does
    /// not restart a camera.
    pub adaptive_quality: bool,
}

/// The value of a configuration.
pub struct ConfigModel {
    pub camera_id: Seq<char>,
    pub node: Seq<char>,
    pub width: u32,
    pub height: u32,
    pub framerate: u32,
    pub capture_encoding: Seq<char>,
    pub adaptive_quality: bool,
}

impl View for CameraConfig {
    type V = ConfigModel;

    open spec fn view(&self) -> ConfigModel {
        ConfigModel {
            camera_id: self.camera_id@,
            node: self.node@,
            width: self.width,
            height: self.height,
            framerate: self.framerate,
            capture_encoding: self.capture_encoding@,
            adaptive_quality: self.adaptive_quality,
        }
    }
}

impl ConfigModel {
    /// Two configurations capture alike: they agree in every field but
    /// `adaptive_quality`.
    pub open spec fn captures_like(self, other: ConfigModel) -> bool {
        &&& self.camera_id == other.camera_id
        &&& self.node == other.node
        &&& self.width == other.width
        &&& self.height == other.height
        &&& self.framerate == other.framerate
        &&& self.capture_encoding == other.capture_encoding
    }
}

impl PartialEq for CameraConfig {
    fn eq(&self, other: &Self) -> (r: bool) {
        self.camera_id == other.camera_id && self.node == other.node && self.width == other.width
            && self.height == other.height && self.framerate == other.framerate
            && self.capture_encoding == other.capture_encoding
    }
}

impl vstd::std_specs::cmp::PartialEqSpecImpl for CameraConfig {
    open spec fn obeys_eq_spec() -> bool {
        true
    }

    open spec fn eq_spec(&self, other: &Self) -> bool {
        self@.captures_like(other@)
    }
}

impl Eq for CameraConfig {

}

impl Clone for CameraConfig {
    fn clone(&self) -> (r: Self)
        ensures
            r@ == self@,
    {
        CameraConfig {
            camera_id: self.camera_id.clone(),
            node: self.node.clone(),
            width: self.width,
            height: self.height,
            framerate: self.framerate,
            capture_encoding: self.capture_encoding.clone(),
            adaptive_quality: self.adaptive_quality,
        }
    }
}

/// The upper-case form of a text that is not all ASCII, by the rules of
/// Unicode.
pub uninterp spec fn unicode_uppercase(s: Seq<char>) -> Seq<char>;

/// The upper-case form of a text.
pub open spec fn uppercase(s: Seq<char>) -> Seq<char> {
    if vstd::utf8::is_ascii_chars(s) {
        crate::text::raised(s)
    } else {
        unicode_uppercase(s)
    }
}

/// `str::to_uppercase` gives the upper-case form of a text. Of an ASCII text it
/// turns the letters `a` to `z` to `A` to `Z` and keeps the rest.
#[verifier::external_body]
fn to_uppercase(s: &str) -> (r: String)
    ensures
        r@ == (if vstd::utf8::is_ascii_chars(s@) {
            crate::text::raised(s@)
        } else {
            unicode_uppercase(s@)
        }),
{
    s.to_uppercase()
}

/// What a request says of the fields of a configuration, as text.
#[derive(Debug)]
pub struct RequestFields {
    pub node: Option<String>,
    pub resolution: Option<String>,
    pub framerate: Option<String>,
    pub capture_encoding: Option<String>,
}

/// The value of what a request says.
pub struct FieldsModel {
    pub node: Option<Seq<char>>,
    pub resolution: Option<Seq<char>>,
    pub framerate: Option<Seq<char>>,
    pub capture_encoding: Option<Seq<char>>,
}

impl View for RequestFields {
    type V = FieldsModel;

    open spec fn view(&self) -> FieldsModel {
        FieldsModel {
            node: crate::request::string_view(self.node),
            resolution: crate::request::string_view(self.resolution),
            framerate: crate::request::string_view(self.framerate),
            capture_encoding: crate::request::string_view(self.capture_encoding),
        }
    }
}

/// The fields of a request: each from the query, or else from its header.
pub open spec fn requested_fields(
    query: Map<Seq<char>, Seq<char>>,
    headers: Map<Seq<char>, Seq<u8>>,
) -> FieldsModel {
    FieldsModel {
        node: crate::request::requested(query, headers, "node"@, "x-node"@),
        resolution: crate::request::requested(query, headers, "resolution"@, "x-resolution"@),
        framerate: crate::request::requested(query, headers, "framerate"@, "x-framerate"@),
        capture_encoding: crate::request::requested(
            query,
            headers,
            "capture_encoding"@,
            "x-capture-encoding"@,
        ),
    }
}

impl RequestFields {
    /// Reads the fields out of the query and the headers of a request.
    pub fn of_request(query: &Query, headers: &HeaderMap<HeaderValue>) -> (r: Self)
        ensures
            r@ == requested_fields(query@, crate::request::header_entries(*headers)),
    {
        RequestFields {
            node: value_from_request(query, headers, "node", "x-node"),
            resolution: value_from_request(query, headers, "resolution", "x-resolution"),
            framerate: value_from_request(query, headers, "framerate", "x-framerate"),
            capture_encoding: value_from_request(
                query,
                headers,
                "capture_encoding",
                "x-capture-encoding",
            ),
        }
    }
}

/// A text that is a whole number: digits, with an optional plus sign in front.
pub open spec fn is_whole_number(s: Seq<char>) -> bool {
    let digits = crate::decimal::unsigned_part(s);
    digits.len() > 0 && crate::decimal::all_digits(digits)
}

/// The frame rate that a text stands for. A whole number stands for itself,
/// capped at the range of a `u32`; any other text has the given reading.
pub open spec fn framerate_value(s: Seq<char>, reading: Option<u32>) -> Option<u32> {
    if is_whole_number(s) {
        let value = crate::decimal::digits_value(crate::decimal::unsigned_part(s));
        Some(if value <= u32::MAX { value as u32 } else { u32::MAX })
    } else {
        reading
    }
}

/// Whether a text is a whole number.
fn whole_number(s: &str) -> (r: bool)
    ensures
        r == is_whole_number(s@),
{
    let chars: Vec<char> = chars_of(s);
    let start: usize = if chars.len() > 0 && chars[0] == '+' {
        1
    } else {
        0
    };
    let ghost digits = crate::decimal::unsigned_part(s@);
    assert(digits =~= chars@.skip(start as int));
    let mut i: usize = start;
    while i < chars.len()
        invariant
            start <= i <= chars@.len(),
            digits == crate::decimal::unsigned_part(s@),
            digits == chars@.skip(start as int),
            forall|j: int| 0 <= j < i - start ==> crate::decimal::is_digit(#[trigger] digits[j]),
        decreases chars@.len() - i,
    {
        if chars[i] < '0' || chars[i] > '9' {
            assert(!crate::decimal::is_digit(digits[i - start]));
            return false;
        }
        i += 1;
    }
    start < chars.len()
}

/// Reads a frame rate. What is no whole number is read with floating point,
/// which the caller does: `reading` is the outcome, cut to a `u32`.
pub fn read_framerate(s: &str, reading: Option<u32>) -> (r: Option<u32>)
    ensures
        r == framerate_value(s@, reading),
{
    if whole_number(s) {
        match parse_decimal(s, u32::MAX as u64) {
            Some(value) => Some(value as u32),
            None => Some(u32::MAX),
        }
    } else {
        reading
    }
}

/// The device node: as requested, or as it was.
pub open spec fn chosen_node(fields: FieldsModel, existing: Option<ConfigModel>) -> Result<
    Seq<char>,
    ErrorModel,
> {
    match (fields.node, existing) {
        (Some(node), _) => Ok(node),
        (None, Some(config)) => Ok(config.node),
        (None, None) => Err(ErrorModel::MissingBootstrapField("node"@)),
    }
}

/// The width and the height: as requested, or as they were.
pub open spec fn chosen_resolution(fields: FieldsModel, existing: Option<ConfigModel>) -> Result<
    (u32, u32),
    ErrorModel,
> {
    match (fields.resolution, existing) {
        (Some(text), _) => match crate::request::resolution(text) {
            Some(size) => Ok(size),
            None => Err(ErrorModel::InvalidBootstrapField("resolution"@)),
        },
        (None, Some(config)) => Ok((config.width, config.height)),
        (None, None) => Err(ErrorModel::MissingBootstrapField("resolution"@)),
    }
}

/// The frame rate: as requested, or as it was.
pub open spec fn chosen_framerate(
    fields: FieldsModel,
    existing: Option<ConfigModel>,
    reading: Option<u32>,
) -> Result<u32, ErrorModel> {
    match (fields.framerate, existing) {
        (Some(text), _) => match framerate_value(text, reading) {
            Some(value) => Ok(value),
            None => Err(ErrorModel::InvalidBootstrapField("framerate"@)),
        },
        (None, Some(config)) => Ok(config.framerate),
        (None, None) => Err(ErrorModel::MissingBootstrapField("framerate"@)),
    }
}

/// The capture encoding, in upper case: as requested, or as it was.
pub open spec fn chosen_encoding(fields: FieldsModel, existing: Option<ConfigModel>) -> Result<
    Seq<char>,
    ErrorModel,
> {
    match (fields.capture_encoding, existing) {
        (Some(text), _) => Ok(uppercase(text)),
        (None, Some(config)) => Ok(uppercase(config.capture_encoding)),
        (None, None) => Err(ErrorModel::MissingBootstrapField("capture_encoding"@)),
    }
}

/// The configuration that a request asks for. Fields that it does not name are
/// those of the existing configuration. Of several faults the first one counts,
/// in the order node, resolution, frame rate, capture encoding.
pub open spec fn requested_config(
    camera_id: Seq<char>,
    fields: FieldsModel,
    existing: Option<ConfigModel>,
    reading: Option<u32>,
) -> Result<ConfigModel, ErrorModel> {
    match (
        chosen_node(fields, existing),
        chosen_resolution(fields, existing),
        chosen_framerate(fields, existing, reading),
        chosen_encoding(fields, existing),
    ) {
        (Err(error), _, _, _) => Err(error),
        (_, Err(error), _, _) => Err(error),
        (_, _, Err(error), _) => Err(error),
        (_, _, _, Err(error)) => Err(error),
        (Ok(node), Ok((width, height)), Ok(framerate), Ok(capture_encoding)) => Ok(
            ConfigModel {
                camera_id,
                node,
                width,
                height,
                framerate,
                capture_encoding,
                adaptive_quality: existing matches Some(config) && config.adaptive_quality,
            },
        ),
    }
}

/// The value of an optional configuration.
pub open spec fn existing_view(existing: Option<&CameraConfig>) -> Option<ConfigModel> {
    match existing {
        Some(config) => Some(config@),
        None => None,
    }
}

/// The value of a result with a configuration or an error in it.
pub open spec fn config_outcome(r: Result<CameraConfig, CameraManagerError>) -> Result<
    ConfigModel,
    ErrorModel,
> {
    match r {
        Ok(config) => Ok(config@),
        Err(error) => Err(error@),
    }
}

impl CameraConfig {
    /// A configuration for trials.
    pub fn test(camera_id: &str) -> (r: Self)
        ensures
            r@ == (ConfigModel {
                camera_id: camera_id@,
                node: "/dev/video0"@,
                width: 640,
                height: 480,
                framerate: 30,
                capture_encoding: "YUYV"@,
                adaptive_quality: false,
            }),
    {
        CameraConfig {
            camera_id: camera_id.to_owned(),
            node: "/dev/video0".to_owned(),
            width: 640,
            height: 480,
            framerate: 30,
            capture_encoding: "YUYV".to_owned(),
            adaptive_quality: false,
        }
    }

    /// The configuration that the fields of a request ask for. `reading` is the
    /// frame rate text read with floating point, where that gives a number.
    pub fn from_fields(
        camera_id: &str,
        fields: RequestFields,
        existing: Option<&CameraConfig>,
        reading: Option<u32>,
    ) -> (r: Result<Self, CameraManagerError>)
        ensures
            config_outcome(r) == requested_config(
                camera_id@,
                fields@,
                existing_view(existing),
                reading,
            ),
    {
        let node: String = match (fields.node, existing) {
            (Some(node), _) => node,
            (None, Some(config)) => config.node.clone(),
            (None, None) => {
                return Err(CameraManagerError::MissingBootstrapField("node"));
            },
        };
        let (width, height): (u32, u32) = match (fields.resolution, existing) {
            (Some(text), _) => match parse_resolution(text.as_str()) {
                Ok(size) => size,
                Err(error) => {
                    return Err(error);
                },
            },
            (None, Some(config)) => (config.width, config.height),
            (None, None) => {
                return Err(CameraManagerError::MissingBootstrapField("resolution"));
            },
        };
        let framerate: u32 = match (fields.framerate, existing) {
            (Some(text), _) => match read_framerate(text.as_str(), reading) {
                Some(value) => value,
                None => {
                    return Err(CameraManagerError::InvalidBootstrapField("framerate"));
                },
            },
            (None, Some(config)) => config.framerate,
            (None, None) => {
                return Err(CameraManagerError::MissingBootstrapField("framerate"));
            },
        };
        let capture_encoding: String = match (fields.capture_encoding, existing) {
            (Some(text), _) => to_uppercase(text.as_str()),
            (None, Some(config)) => to_uppercase(config.capture_encoding.as_str()),
            (None, None) => {
                return Err(CameraManagerError::MissingBootstrapField("capture_encoding"));
            },
        };
        let adaptive_quality: bool = match existing {
            Some(config) => config.adaptive_quality,
            None => false,
        };
        Ok(
            CameraConfig {
                camera_id: camera_id.to_owned(),
                node,
                width,
                height,
                framerate,
                capture_encoding,
                adaptive_quality,
            },
        )
    }

    /// The configuration that a request asks for. `reading` is the frame rate
    /// text of the request read with floating point, where that gives a number.
    pub fn from_request(
        camera_id: &str,
        query: &Query,
        headers: &HeaderMap<HeaderValue>,
        existing: Option<&CameraConfig>,
        reading: Option<u32>,
    ) -> (r: Result<Self, CameraManagerError>)
        ensures
            config_outcome(r) == requested_config(
                camera_id@,
                requested_fields(query@, crate::request::header_entries(*headers)),
                existing_view(existing),
                reading,
            ),
    {
        CameraConfig::from_fields(
            camera_id,
            RequestFields::of_request(query, headers),
            existing,
            reading,
        )
    }
}

/// The encodings that a camera can be captured in.
pub open spec fn is_supported(encoding: Seq<char>) -> bool {
    encoding == "YUYV"@ || encoding == "MJPG"@
}

/// The supported encodings are in upper case.
pub proof fn lemma_supported_upper(encoding: Seq<char>)
    requires
        is_supported(encoding),
    ensures
        uppercase(encoding) == encoding,
{
    reveal_strlit("YUYV");
    reveal_strlit("MJPG");
    assert(crate::text::raised(encoding) =~= encoding);
}

/// Configurations that capture alike form classes: the comparison is
/// reflexive, symmetric and transitive.
pub proof fn law_captures_like_is_equivalence(a: ConfigModel, b: ConfigModel, c: ConfigModel)
    ensures
        a.captures_like(a),
        a.captures_like(b) ==> b.captures_like(a),
        a.captures_like(b) && b.captures_like(c) ==> a.captures_like(c),
{
}

/// Changing `adaptive_quality` leaves a configuration equal to itself.
pub proof fn law_adaptive_quality_is_not_compared(a: ConfigModel, adaptive_quality: bool)
    ensures
        a.captures_like(ConfigModel { adaptive_quality, ..a }),
{
}

/// A request that names all four fields gets the same configuration, or the
/// same error, whatever the existing configuration is, but for
/// `adaptive_quality`.
pub proof fn law_request_wins_over_existing(
    camera_id: Seq<char>,
    fields: FieldsModel,
    existing: Option<ConfigModel>,
    reading: Option<u32>,
)
    requires
        fields.node is Some,
        fields.resolution is Some,
        fields.framerate is Some,
        fields.capture_encoding is Some,
    ensures
        match (
            requested_config(camera_id, fields, existing, reading),
            requested_config(camera_id, fields, None, reading),
        ) {
            (Ok(a), Ok(b)) => a.captures_like(b),
            (Err(a), Err(b)) => a == b,
            _ => false,
        },
{
}

/// What a request says that names no field.
pub open spec fn no_fields() -> FieldsModel {
    FieldsModel { node: None, resolution: None, framerate: None, capture_encoding: None }
}

/// The text that the capture encoding is taken from: as requested, or as it was.
pub open spec fn encoding_source(fields: FieldsModel, existing: Option<ConfigModel>) -> Option<
    Seq<char>,
> {
    match (fields.capture_encoding, existing) {
        (Some(text), _) => Some(text),
        (None, Some(config)) => Some(config.capture_encoding),
        (None, None) => None,
    }
}

/// The upper-case form of an ASCII text is in upper case.
pub proof fn lemma_uppercase_twice(s: Seq<char>)
    requires
        vstd::utf8::is_ascii_chars(s),
    ensures
        uppercase(uppercase(s)) == uppercase(s),
{
    let upper = crate::text::raised(s);
    assert(vstd::utf8::is_ascii_chars(upper));
    assert(crate::text::raised(upper) =~= upper);
}

/// A request that names no field asks for the configuration that there is,
/// number for number, under the id that is asked for and with the encoding in
/// upper case.
pub proof fn law_bare_request_keeps_config(
    camera_id: Seq<char>,
    config: ConfigModel,
    reading: Option<u32>,
)
    ensures
        requested_config(camera_id, no_fields(), Some(config), reading) == Ok::<
            ConfigModel,
            ErrorModel,
        >(
            ConfigModel {
                camera_id,
                capture_encoding: uppercase(config.capture_encoding),
                ..config
            },
        ),
{
}

/// The same request, made again on the configuration that it asked for, asks
/// for it again, where it names the encoding, or the encoding that was there is
/// ASCII, or the one that came out is in upper case.
pub proof fn law_repeated_request_keeps_config(
    camera_id: Seq<char>,
    fields: FieldsModel,
    existing: Option<ConfigModel>,
    reading: Option<u32>,
    config: ConfigModel,
)
    requires
        requested_config(camera_id, fields, existing, reading) == Ok::<ConfigModel, ErrorModel>(
            config,
        ),
        ({
            ||| fields.capture_encoding is Some
            ||| encoding_source(fields, existing) matches Some(text) && vstd::utf8::is_ascii_chars(
                text,
            )
            ||| uppercase(config.capture_encoding) == config.capture_encoding
        }),
    ensures
        requested_config(camera_id, fields, Some(config), reading) == Ok::<
            ConfigModel,
            ErrorModel,
        >(config),
{
    if let Some(text) = encoding_source(fields, existing) {
        if vstd::utf8::is_ascii_chars(text) {
            lemma_uppercase_twice(text);
        }
    }
}

/// A request that names no field, made on the configuration that another
/// request asked for, asks for it again, where the encoding that was asked for
/// is ASCII or the one that came out is in upper case.
pub proof fn law_bare_request_follows_request(
    camera_id: Seq<char>,
    fields: FieldsModel,
    existing: Option<ConfigModel>,
    reading: Option<u32>,
    config: ConfigModel,
    later_reading: Option<u32>,
)
    requires
        requested_config(camera_id, fields, existing, reading) == Ok::<ConfigModel, ErrorModel>(
            config,
        ),
        ({
            ||| encoding_source(fields, existing) matches Some(text) && vstd::utf8::is_ascii_chars(
                text,
            )
            ||| uppercase(config.capture_encoding) == config.capture_encoding
        }),
    ensures
        requested_config(camera_id, no_fields(), Some(config), later_reading) == Ok::<
            ConfigModel,
            ErrorModel,
        >(config),
{
    if let Some(text) = encoding_source(fields, existing) {
        if vstd::utf8::is_ascii_chars(text) {
            lemma_uppercase_twice(text);
        }
    }
    law_bare_request_keeps_config(camera_id, config, later_reading);
}

/// A configuration sent back as text asks for itself, where its encoding is in
/// upper case.
pub proof fn law_config_round_trip(
    config: ConfigModel,
    existing: Option<ConfigModel>,
    reading: Option<u32>,
)
    requires
        uppercase(config.capture_encoding) == config.capture_encoding,
    ensures
        requested_config(
            config.camera_id,
            FieldsModel {
                node: Some(config.node),
                resolution: Some(crate::request::resolution_text(config.width, config.height)),
                framerate: Some(crate::decimal::decimal_text(config.framerate as nat)),
                capture_encoding: Some(config.capture_encoding),
            },
            existing,
            reading,
        ) matches Ok(asked) && asked.captures_like(config),
{
    crate::request::law_resolution_round_trip(config.width, config.height);
    crate::decimal::law_decimal_round_trip(config.framerate as nat, u32::MAX as nat);
}

/// The value of a configuration has its fields, each in its place.
pub proof fn law_config_value(config: CameraConfig)
    ensures
        config@.camera_id == config.camera_id@,
        config@.node == config.node@,
        config@.width == config.width,
        config@.height == config.height,
        config@.framerate == config.framerate,
        config@.capture_encoding == config.capture_encoding@,
        config@.adaptive_quality == config.adaptive_quality,
{
}

/// The value of what a request says has its fields, each in its place.
pub proof fn law_fields_value(fields: RequestFields)
    ensures
        fields.node matches Some(text) ==> fields@.node == Some(text@),
        fields.node is None ==> fields@.node is None,
        fields.resolution matches Some(text) ==> fields@.resolution == Some(text@),
        fields.resolution is None ==> fields@.resolution is None,
        fields.framerate matches Some(text) ==> fields@.framerate == Some(text@),
        fields.framerate is None ==> fields@.framerate is None,
        fields.capture_encoding matches Some(text) ==> fields@.capture_encoding == Some(text@),
        fields.capture_encoding is None ==> fields@.capture_encoding is None,
{
}

/// The outcome of a request has the value of its configuration or of its error.
pub proof fn law_config_outcome_value(config: CameraConfig, error: CameraManagerError)
    ensures
        config_outcome(Ok(config)) == Ok::<ConfigModel, ErrorModel>(config@),
        config_outcome(Err(error)) == Err::<ConfigModel, ErrorModel>(error@),
        existing_view(Some(&config)) == Some(config@),
        existing_view(None) is None,
{
}

/// Two configurations count as the same exactly where id, node, width, height,
/// frame rate and encoding are all the same.
pub proof fn law_any_other_field_is_compared(a: ConfigModel, b: ConfigModel)
    ensures
        a.captures_like(b) <==> a == (ConfigModel { adaptive_quality: a.adaptive_quality, ..b }),
{
}

/// Of an ASCII text the upper-case form has the letters `a` to `z` moved by 32 code
/// points to `A` to `Z`, and everything else as it is. Of any other text it is what
/// Unicode says.
pub proof fn law_uppercase_by_letter(s: Seq<char>, i: int)
    requires
        0 <= i < s.len(),
    ensures
        vstd::utf8::is_ascii_chars(s) ==> {
            &&& uppercase(s).len() == s.len()
            &&& 97 <= s[i] as int <= 122 ==> uppercase(s)[i] as int == s[i] as int - 32
            &&& !(97 <= s[i] as int <= 122) ==> uppercase(s)[i] == s[i]
        },
        !vstd::utf8::is_ascii_chars(s) ==> uppercase(s) == unicode_uppercase(s),
{
    crate::text::law_upper_case_by_letter(s, i);
}

/// The empty text stays empty in upper case.
pub proof fn law_uppercase_of_nothing()
    ensures
        uppercase(Seq::empty()).len() == 0,
{
}

/// Each field of a request is what the request says of it: the node under `node`
/// or `x-node`, the resolution under `resolution` or `x-resolution`, the frame rate
/// under `framerate` or `x-framerate`, and the encoding under `capture_encoding` or
/// `x-capture-encoding`.
pub proof fn law_fields_are_what_is_said(
    query: Map<Seq<char>, Seq<char>>,
    headers: Map<Seq<char>, Seq<u8>>,
)
    ensures
        ({
            let fields = requested_fields(query, headers);
            &&& crate::request::is_said(fields.node, query, headers, "node"@, "x-node"@)
            &&& crate::request::is_said(
                fields.resolution,
                query,
                headers,
                "resolution"@,
                "x-resolution"@,
            )
            &&& crate::request::is_said(
                fields.framerate,
                query,
                headers,
                "framerate"@,
                "x-framerate"@,
            )
            &&& crate::request::is_said(
                fields.capture_encoding,
                query,
                headers,
                "capture_encoding"@,
                "x-capture-encoding"@,
            )
        }),
{
    reveal_strlit("x-node");
    reveal_strlit("x-resolution");
    reveal_strlit("x-framerate");
    reveal_strlit("x-capture-encoding");
    crate::request::law_lookup_finds_what_is_said(query, headers, "node"@, "x-node"@);
    crate::request::law_lookup_finds_what_is_said(query, headers, "resolution"@, "x-resolution"@);
    crate::request::law_lookup_finds_what_is_said(query, headers, "framerate"@, "x-framerate"@);
    crate::request::law_lookup_finds_what_is_said(
        query,
        headers,
        "capture_encoding"@,
        "x-capture-encoding"@,
    );
}

/// A parameter or a header of any other name, such as `action`, changes no field.
pub proof fn law_other_entries_change_no_field(
    query: Map<Seq<char>, Seq<char>>,
    headers: Map<Seq<char>, Seq<u8>>,
    name: Seq<char>,
    value: Seq<char>,
    header: Seq<char>,
    bytes: Seq<u8>,
)
    requires
        name != "node"@,
        name != "resolution"@,
        name != "framerate"@,
        name != "capture_encoding"@,
        header != "x-node"@,
        header != "x-resolution"@,
        header != "x-framerate"@,
        header != "x-capture-encoding"@,
    ensures
        requested_fields(query.insert(name, value), headers) == requested_fields(query, headers),
        requested_fields(query, headers.insert(header, bytes)) == requested_fields(query, headers),
{
    crate::request::lemma_header_names_lower();
}

/// A frame rate that is a row of digits, with or without a plus sign in front, is
/// read as its number, and at most as the largest that there is, whatever other
/// reading it has.
pub proof fn law_whole_framerate_is_its_number(s: Seq<char>, reading: Option<u32>)
    requires
        s.len() > 0,
        forall|i: int| 0 <= i < s.len() ==> '0' <= #[trigger] s[i] <= '9',
    ensures
        framerate_value(s, reading) matches Some(rate) && {
            &&& rate <= crate::decimal::digits_value(s)
            &&& rate < 0xffff_ffff ==> rate == crate::decimal::digits_value(s)
        },
        framerate_value(seq!['+'] + s, reading) == framerate_value(s, reading),
{
    assert(s[0] != '+');
    assert(crate::decimal::all_digits(s));
    assert((seq!['+'] + s).skip(1) =~= s);
}

/// A frame rate with any other character in it, or with no digit, has the reading
/// that it is given.
pub proof fn law_other_framerate_is_its_reading(s: Seq<char>, i: int, reading: Option<u32>)
    requires
        0 <= i < s.len(),
        !('0' <= s[i] <= '9'),
        i == 0 ==> s[i] != '+',
    ensures
        framerate_value(s, reading) == reading,
        framerate_value(Seq::empty(), reading) == reading,
        framerate_value(seq!['+'], reading) == reading,
{
    let digits = crate::decimal::unsigned_part(s);
    if s[0] == '+' {
        assert(digits[i - 1] == s[i]);
        assert(!crate::decimal::is_digit(digits[i - 1]));
    } else {
        assert(!crate::decimal::is_digit(digits[i]));
    }
    assert(seq!['+'].skip(1) =~= Seq::<char>::empty());
}

/// A configuration that comes of a request has the id that was asked for, each
/// field as the request has it, and each field that the request does not have as it
/// was before.
pub proof fn law_config_is_what_was_asked(
    camera_id: Seq<char>,
    fields: FieldsModel,
    existing: Option<ConfigModel>,
    reading: Option<u32>,
    config: ConfigModel,
)
    requires
        requested_config(camera_id, fields, existing, reading) == Ok::<ConfigModel, ErrorModel>(
            config,
        ),
    ensures
        config.camera_id == camera_id,
        fields.node matches Some(node) ==> config.node == node,
        fields.node is None ==> (existing matches Some(was) && config.node == was.node),
        fields.resolution matches Some(text) ==> crate::request::resolution(text) == Some(
            (config.width, config.height),
        ),
        fields.resolution is None ==> (existing matches Some(was) && config.width == was.width
            && config.height == was.height),
        fields.framerate matches Some(text) ==> framerate_value(text, reading) == Some(
            config.framerate,
        ),
        fields.framerate is None ==> (existing matches Some(was) && config.framerate
            == was.framerate),
        fields.capture_encoding matches Some(text) ==> config.capture_encoding == uppercase(text),
        fields.capture_encoding is None ==> (existing matches Some(was)
            && config.capture_encoding == uppercase(was.capture_encoding)),
        existing matches Some(was) ==> config.adaptive_quality == was.adaptive_quality,
        existing is None ==> !config.adaptive_quality,
{
}

/// A request gets a configuration exactly where nothing is missing and what it
/// names can be read. Of what is wrong the first thing is told, in the order node,
/// resolution, frame rate, encoding.
pub proof fn law_first_fault_is_told(
    camera_id: Seq<char>,
    fields: FieldsModel,
    existing: Option<ConfigModel>,
    reading: Option<u32>,
)
    ensures
        ({
            let outcome = requested_config(camera_id, fields, existing, reading);
            let no_node = fields.node is None && existing is None;
            let no_size = fields.resolution is None && existing is None;
            let bad_size = fields.resolution matches Some(text) && crate::request::resolution(
                text,
            ) is None;
            let no_rate = fields.framerate is None && existing is None;
            let bad_rate = fields.framerate matches Some(text) && framerate_value(
                text,
                reading,
            ) is None;
            let no_encoding = fields.capture_encoding is None && existing is None;
            let node_fits = !no_node;
            let size_fits = node_fits && !no_size && !bad_size;
            let rate_fits = size_fits && !no_rate && !bad_rate;
            &&& no_node ==> outcome == Err::<ConfigModel, ErrorModel>(
                ErrorModel::MissingBootstrapField("node"@),
            )
            &&& node_fits && no_size ==> outcome == Err::<ConfigModel, ErrorModel>(
                ErrorModel::MissingBootstrapField("resolution"@),
            )
            &&& node_fits && bad_size ==> outcome == Err::<ConfigModel, ErrorModel>(
                ErrorModel::InvalidBootstrapField("resolution"@),
            )
            &&& size_fits && no_rate ==> outcome == Err::<ConfigModel, ErrorModel>(
                ErrorModel::MissingBootstrapField("framerate"@),
            )
            &&& size_fits && bad_rate ==> outcome == Err::<ConfigModel, ErrorModel>(
                ErrorModel::InvalidBootstrapField("framerate"@),
            )
            &&& rate_fits && no_encoding ==> outcome == Err::<ConfigModel, ErrorModel>(
                ErrorModel::MissingBootstrapField("capture_encoding"@),
            )
            &&& rate_fits && !no_encoding ==> outcome is Ok
        }),
{
}

/// A camera can be captured in the encodings YUYV and MJPG, in upper case, and in
/// no other.
pub proof fn law_two_encodings_are_supported(encoding: Seq<char>)
    ensures
        is_supported(encoding) <==> encoding == seq!['Y', 'U', 'Y', 'V'] || encoding
            == seq!['M', 'J', 'P', 'G'],
{
    reveal_strlit("YUYV");
    reveal_strlit("MJPG");
    assert("YUYV"@ =~= seq!['Y', 'U', 'Y', 'V']);
    assert("MJPG"@ =~= seq!['M', 'J', 'P', 'G']);
}

} // verus!

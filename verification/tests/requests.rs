use http::HeaderMap;
use http::HeaderValue;
use yv_streamer_software::config::read_framerate;
use yv_streamer_software::config::RequestFields;
use yv_streamer_software::manager::CameraConfig;
use yv_streamer_software::manager::CameraManagerError;
use yv_streamer_software::request::has_bootstrap;
use yv_streamer_software::request::parse_resolution;
use yv_streamer_software::request::value_from_request;
use yv_streamer_software::request::Query;

fn query(pairs: &[(&str, &str)]) -> Query {
    let mut query = Query::new();
    for (name, value) in pairs {
        query.insert(name.to_string(), value.to_string());
    }
    query
}

fn headers(pairs: &[(&'static str, &'static str)]) -> HeaderMap {
    let mut headers = HeaderMap::new();
    for (name, value) in pairs {
        headers.append(*name, HeaderValue::from_static(value));
    }
    headers
}

fn full_query() -> Query {
    query(&[
        ("node", "/dev/video0"),
        ("resolution", "640x480"),
        ("framerate", "30"),
        ("capture_encoding", "YUYV"),
    ])
}

#[test]
fn camera_config_equality_ignores_adaptive_quality() {
    let mut a = CameraConfig::test("cam-1");
    let mut b = CameraConfig::test("cam-1");

    a.adaptive_quality = false;
    b.adaptive_quality = true;
    assert_eq!(a, b, "adaptive_quality should be excluded from equality");

    // Verify other fields ARE included
    b.framerate = 15;
    assert_ne!(a, b, "framerate change should make configs unequal");
}

#[test]
fn every_other_field_is_compared() {
    let a = CameraConfig::test("cam-1");
    assert_eq!(a, a.clone());
    assert_ne!(a, CameraConfig::test("cam-2"));
    let mut b = a.clone();
    b.node = "/dev/video1".to_string();
    assert_ne!(a, b);
    let mut b = a.clone();
    b.width = 641;
    assert_ne!(a, b);
    let mut b = a.clone();
    b.height = 481;
    assert_ne!(a, b);
    let mut b = a.clone();
    b.capture_encoding = "MJPG".to_string();
    assert_ne!(a, b);
}

#[test]
fn a_full_query_makes_a_configuration() {
    let config =
        CameraConfig::from_request("cam-1", &full_query(), &HeaderMap::new(), None, None).unwrap();
    assert_eq!(config, CameraConfig::test("cam-1"));
    assert!(!config.adaptive_quality);
}

#[test]
fn full_headers_make_the_same_configuration() {
    let headers = headers(&[
        ("X-Node", "/dev/video0"),
        ("X-Resolution", "640x480"),
        ("x-framerate", "30"),
        ("x-capture-encoding", "yuyv"),
    ]);
    let config = CameraConfig::from_request("cam-1", &Query::new(), &headers, None, None).unwrap();
    assert_eq!(config, CameraConfig::test("cam-1"));
}

#[test]
fn query_parameters_win_over_headers() {
    let headers = headers(&[("x-node", "/dev/video7")]);
    let config =
        CameraConfig::from_request("cam-1", &full_query(), &headers, None, None).unwrap();
    assert_eq!(config.node, "/dev/video0");
    assert_eq!(
        value_from_request(&query(&[("node", "a")]), &headers, "node", "x-node"),
        Some("a".to_string())
    );
    assert_eq!(
        value_from_request(&Query::new(), &headers, "node", "X-NODE"),
        Some("/dev/video7".to_string())
    );
}

#[test]
fn the_first_value_of_a_header_counts() {
    let headers = headers(&[("x-node", "first"), ("x-node", "second")]);
    assert_eq!(
        value_from_request(&Query::new(), &headers, "node", "x-node"),
        Some("first".to_string())
    );
}

#[test]
fn the_last_value_of_a_parameter_counts() {
    let query = query(&[("node", "first"), ("other", "x"), ("node", "second")]);
    assert_eq!(query.get("node"), Some("second"));
    assert_eq!(query.get("other"), Some("x"));
    assert_eq!(query.get("nod"), None);
}

#[test]
fn missing_fields_are_named_in_order() {
    let empty = HeaderMap::new();
    let missing = |query: &Query| {
        match CameraConfig::from_request("cam-1", query, &empty, None, None) {
            Err(CameraManagerError::MissingBootstrapField(field)) => field,
            other => panic!("unexpected outcome {:?}", other),
        }
    };
    assert_eq!(missing(&Query::new()), "node");
    assert_eq!(missing(&query(&[("node", "n")])), "resolution");
    assert_eq!(missing(&query(&[("node", "n"), ("resolution", "1x1")])), "framerate");
    assert_eq!(
        missing(&query(&[("node", "n"), ("resolution", "1x1"), ("framerate", "5")])),
        "capture_encoding"
    );
}

#[test]
fn an_invalid_resolution_comes_before_a_missing_framerate() {
    let outcome = CameraConfig::from_request(
        "cam-1",
        &query(&[("node", "n"), ("resolution", "wide")]),
        &HeaderMap::new(),
        None,
        None,
    );
    assert!(matches!(
        outcome,
        Err(CameraManagerError::InvalidBootstrapField("resolution"))
    ));
}

#[test]
fn an_invalid_framerate_is_refused() {
    let outcome = CameraConfig::from_request(
        "cam-1",
        &query(&[("node", "n"), ("resolution", "1x1"), ("framerate", "fast")]),
        &HeaderMap::new(),
        None,
        None,
    );
    assert!(matches!(
        outcome,
        Err(CameraManagerError::InvalidBootstrapField("framerate"))
    ));
}

#[test]
fn a_fractional_framerate_has_the_given_reading() {
    let mut parameters = full_query();
    parameters.insert("framerate".to_string(), "29.97".to_string());
    let reading = "29.97".parse::<f64>().ok().map(|v| v as u32);
    let config =
        CameraConfig::from_request("cam-1", &parameters, &HeaderMap::new(), None, reading).unwrap();
    assert_eq!(config.framerate, 29);
}

#[test]
fn whole_framerates_are_read_as_floating_point_would() {
    for text in ["0", "7", "30", "+30", "007", "4294967295", "4294967296", "99999999999999999999999999"] {
        let expected = text.parse::<f64>().ok().map(|v| v as u32);
        assert_eq!(read_framerate(text, None), expected);
    }
    for text in ["", "+", "-1", "1e3", "29.97", " 30", "x", "inf"] {
        assert_eq!(read_framerate(text, None), None);
        assert_eq!(read_framerate(text, Some(12)), Some(12));
    }
}

#[test]
fn unnamed_fields_are_kept() {
    let mut existing = CameraConfig::test("cam-1");
    existing.adaptive_quality = true;
    let config = CameraConfig::from_request(
        "cam-1",
        &query(&[("framerate", "15")]),
        &HeaderMap::new(),
        Some(&existing),
        None,
    )
    .unwrap();
    assert_eq!(config.framerate, 15);
    assert_eq!(config.node, existing.node);
    assert_eq!((config.width, config.height), (640, 480));
    assert_eq!(config.capture_encoding, "YUYV");
    assert!(config.adaptive_quality);
}

#[test]
fn a_bare_request_asks_for_what_there_is() {
    let existing = CameraConfig::test("cam-1");
    let config = CameraConfig::from_request(
        "cam-1",
        &Query::new(),
        &HeaderMap::new(),
        Some(&existing),
        None,
    )
    .unwrap();
    assert_eq!(config, existing);
}

#[test]
fn a_bare_request_keeps_every_number_and_raises_the_encoding() {
    let mut existing = CameraConfig::test("cam-1");
    existing.width = u32::MAX;
    existing.height = 0;
    existing.framerate = u32::MAX;
    existing.capture_encoding = "h26x".to_string();
    let none = Query::new();
    let bare = |camera_id: &str, existing: &CameraConfig| {
        CameraConfig::from_request(camera_id, &none, &HeaderMap::new(), Some(existing), None)
            .unwrap()
    };
    let asked = bare("cam-2", &existing);
    assert_eq!(asked.camera_id, "cam-2");
    assert_eq!(asked.node, existing.node);
    assert_eq!((asked.width, asked.height, asked.framerate), (u32::MAX, 0, u32::MAX));
    assert_eq!(asked.capture_encoding, "H26X");
    assert_eq!(bare("cam-2", &asked), asked);
}

#[test]
fn a_repeated_request_asks_for_the_same() {
    let mut existing = CameraConfig::test("cam-1");
    existing.capture_encoding = "mjpg".to_string();
    for pairs in [vec![("framerate", "15")], vec![("capture_encoding", "yuyv")]] {
        let request = query(&pairs);
        let again = |existing: &CameraConfig| {
            CameraConfig::from_request("cam-1", &request, &HeaderMap::new(), Some(existing), None)
                .unwrap()
        };
        let first = again(&existing);
        assert_ne!(first, existing);
        assert_eq!(again(&first), first);
    }
}

#[test]
fn encodings_are_raised_to_upper_case() {
    let fields = |encoding: &str| RequestFields {
        node: Some("n".to_string()),
        resolution: Some("1x1".to_string()),
        framerate: Some("1".to_string()),
        capture_encoding: Some(encoding.to_string()),
    };
    let raised = |encoding: &str| {
        CameraConfig::from_fields("c", fields(encoding), None, None).unwrap().capture_encoding
    };
    assert_eq!(raised("mJpg"), "MJPG");
    assert_eq!(raised("a1-z"), "A1-Z");
    assert_eq!(raised("stra\u{df}e"), "STRASSE");
    assert_eq!(raised("\u{e9}"), "\u{c9}");
}

#[test]
fn a_header_that_is_no_text_counts_but_says_nothing() {
    let mut headers = HeaderMap::new();
    headers.insert("x-node", HeaderValue::from_bytes(b"caf\xe9").unwrap());
    assert!(has_bootstrap(&Query::new(), &headers));
    assert_eq!(value_from_request(&Query::new(), &headers, "node", "x-node"), None);
    assert!(matches!(
        CameraConfig::from_request("c", &Query::new(), &headers, None, None),
        Err(CameraManagerError::MissingBootstrapField("node"))
    ));
}

#[test]
fn tabs_and_spaces_are_text_in_a_header() {
    let headers = headers(&[("x-node", "a\tb c~")]);
    assert_eq!(
        value_from_request(&Query::new(), &headers, "node", "x-node"),
        Some("a\tb c~".to_string())
    );
}

#[test]
fn any_field_is_a_bootstrap() {
    assert!(!has_bootstrap(&Query::new(), &HeaderMap::new()));
    assert!(!has_bootstrap(&query(&[("action", "state")]), &headers(&[("host", "here")])));
    for name in ["node", "resolution", "framerate", "capture_encoding"] {
        assert!(has_bootstrap(&query(&[(name, "")]), &HeaderMap::new()));
    }
    for name in ["x-node", "x-resolution", "x-framerate", "x-capture-encoding"] {
        assert!(has_bootstrap(&Query::new(), &headers(&[(name, "")])));
    }
}

#[test]
fn resolutions_are_two_numbers() {
    assert!(matches!(parse_resolution("640x480"), Ok((640, 480))));
    assert!(matches!(parse_resolution("+1x0"), Ok((1, 0))));
    assert!(matches!(parse_resolution("4294967295x1"), Ok((4294967295, 1))));
    for text in ["", "640", "x", "640x", "x480", "640X480", "1x2x3", "4294967296x1", "-1x1", "1 x1"] {
        assert!(matches!(
            parse_resolution(text),
            Err(CameraManagerError::InvalidBootstrapField("resolution"))
        ));
    }
}

#[test]
fn errors_have_their_texts() {
    assert_eq!(
        CameraManagerError::CameraNotFound("cam-9".to_string()).message(),
        "No camera worker found for cam-9"
    );
    assert_eq!(
        CameraManagerError::InvalidBootstrapField("resolution").message(),
        "Invalid value for bootstrap field resolution"
    );
    assert_eq!(
        CameraManagerError::MissingBootstrapField("node").message(),
        "Missing bootstrap field node"
    );
    assert_eq!(
        CameraManagerError::UnsupportedCaptureEncoding("H264".to_string()).message(),
        "Unsupported capture encoding H264"
    );
    assert_eq!(
        CameraManagerError::WorkerInitialization("no threads".to_string()).message(),
        "no threads"
    );
}

#[test]
fn written_resolutions_read_back() {
    for (width, height) in [(0, 0), (640, 480), (1, u32::MAX), (u32::MAX, 7)] {
        let text = format!("{}x{}", width, height);
        match parse_resolution(&text) {
            Ok(size) => assert_eq!(size, (width, height)),
            Err(error) => panic!("refused: {}", error.message()),
        }
    }
}

#[test]
fn a_configuration_sent_back_asks_for_itself() {
    let config = CameraConfig::test("cam-1");
    let fields = || RequestFields {
        node: Some(config.node.clone()),
        resolution: Some(format!("{}x{}", config.width, config.height)),
        framerate: Some(config.framerate.to_string()),
        capture_encoding: Some(config.capture_encoding.clone()),
    };
    assert_eq!(CameraConfig::from_fields("cam-1", fields(), None, None).unwrap(), config);
    let mut other = CameraConfig::test("cam-1");
    other.node = "/dev/video9".to_string();
    other.framerate = 1;
    assert_eq!(
        CameraConfig::from_fields("cam-1", fields(), Some(&other), None).unwrap(),
        config
    );
}

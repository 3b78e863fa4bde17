use bytes::Bytes;
use yv_streamer_software::app::compat_root;
use yv_streamer_software::app::error_response;
use yv_streamer_software::app::jpeg_headers;
use yv_streamer_software::app::routes;
use yv_streamer_software::app::stream_headers;
use yv_streamer_software::app::stream_step;
use yv_streamer_software::app::unsupported_action;
use yv_streamer_software::app::Endpoint;
use yv_streamer_software::app::StreamEvent;
use yv_streamer_software::manager::build_mjpeg_chunk;
use yv_streamer_software::manager::CameraManagerError;
use yv_streamer_software::request::Query;
use yv_streamer_software::startup::detect_video_devices_in_dir;
use yv_streamer_software::startup::listen_address;
use yv_streamer_software::startup::log_debug_boot_report;
use yv_streamer_software::startup::resolve_host;
use yv_streamer_software::startup::resolve_log_filter;
use yv_streamer_software::startup::resolve_port;
use yv_streamer_software::startup::should_emit_debug_boot_report;
use yv_streamer_software::startup::CapabilitySummary;
use yv_streamer_software::startup::DeviceReport;
use yv_streamer_software::startup::DeviceSummary;
use yv_streamer_software::startup::FormatSummary;
use yv_streamer_software::startup::LogLevel;
use yv_streamer_software::startup::LOG_LEVEL_ENV;

fn action(value: &str) -> Option<Endpoint> {
    let mut query = Query::new();
    query.insert("action".to_string(), value.to_string());
    compat_root(&query)
}

#[test]
fn explicit_log_level_overrides_rust_log() {
    assert_eq!(
        resolve_log_filter(Some("debug".to_string()), Some("warn".to_string())),
        "debug"
    );
}

#[test]
fn rust_log_is_used_when_explicit_log_level_is_missing() {
    assert_eq!(
        resolve_log_filter(None, Some("trace".to_string())),
        "trace"
    );
}

#[test]
fn info_logging_does_not_emit_debug_boot_report() {
    assert!(!should_emit_debug_boot_report("info"));
    assert!(should_emit_debug_boot_report("debug"));
    assert!(should_emit_debug_boot_report("trace"));
    assert!(should_emit_debug_boot_report("yv_streamer_software=debug,tower_http=info"));
}

#[test]
fn log_filters_are_trimmed_and_default_to_info() {
    assert_eq!(LOG_LEVEL_ENV, "YV_STREAMER_SOFTWARE_LOG_LEVEL");
    assert_eq!(resolve_log_filter(None, None), "info");
    assert_eq!(resolve_log_filter(Some(" \t\u{a0}warn\u{3000}\n".to_string()), None), "warn");
    assert_eq!(resolve_log_filter(Some("a b".to_string()), None), "a b");
    assert_eq!(resolve_log_filter(Some("  ".to_string()), Some("warn".to_string())), "info");
    assert_eq!(resolve_log_filter(Some(String::new()), Some("warn".to_string())), "info");
    assert_eq!(resolve_log_filter(Some("\u{200b}".to_string()), None), "\u{200b}");
}

#[test]
fn verbose_filters_are_found_in_any_case() {
    assert!(should_emit_debug_boot_report("DeBuG"));
    assert!(should_emit_debug_boot_report("warn,hyper=TRACE"));
    assert!(!should_emit_debug_boot_report(""));
    assert!(!should_emit_debug_boot_report("debu"));
    assert!(!should_emit_debug_boot_report("d\u{e9}bug"));
}

#[test]
fn video_nodes_are_found_and_sorted() {
    let names = ["video2", "not-a-camera", "video0", "video10", "vide", "video", "avideo"];
    let names: Vec<String> = names.iter().map(|name| name.to_string()).collect();
    assert_eq!(
        detect_video_devices_in_dir(&names),
        vec!["video", "video0", "video10", "video2"]
    );
    assert!(detect_video_devices_in_dir(&Vec::new()).is_empty());
}

#[test]
fn host_and_port_have_defaults() {
    assert_eq!(resolve_host(None), "0.0.0.0");
    assert_eq!(resolve_host(Some("127.0.0.1".to_string())), "127.0.0.1");
    assert_eq!(resolve_port(None), 8080);
    assert_eq!(resolve_port(Some("9000".to_string())), 9000);
    assert_eq!(resolve_port(Some("65535".to_string())), 65535);
    assert_eq!(resolve_port(Some("65536".to_string())), 8080);
    assert_eq!(resolve_port(Some(" 80".to_string())), 8080);
    assert_eq!(listen_address("0.0.0.0", 8080), "0.0.0.0:8080");
}

fn report(scan: Result<Vec<DeviceReport>, String>, active: &[&str]) -> Vec<(LogLevel, String)> {
    let active: Vec<String> = active.iter().map(|id| id.to_string()).collect();
    log_debug_boot_report("0.0.0.0", 8080, &scan, &active)
        .into_iter()
        .map(|line| (line.level, line.text))
        .collect()
}

#[test]
fn the_report_walks_through_the_start() {
    let lines = report(Ok(Vec::new()), &[]);
    let texts: Vec<&str> = lines.iter().map(|line| line.1.as_str()).collect();
    assert_eq!(
        texts,
        vec![
            "Initialization step 1/4: resolved logging configuration",
            "Initialization step 2/4: resolved bind target to 0.0.0.0:8080",
            "Initialization step 3/4: scanning V4L2 devices under /dev",
            "No /dev/video* nodes detected during startup",
            "Initialization step 4/4: inspecting managed camera workers",
            "No managed camera workers are active yet; workers are created lazily on first request",
        ]
    );
    assert!(lines.iter().all(|line| line.0 == LogLevel::Debug));
}

#[test]
fn the_report_tells_of_devices_and_cameras() {
    let devices = vec![
        DeviceReport {
            path: "/dev/video0".to_string(),
            summary: Ok(DeviceSummary {
                capabilities: Ok(CapabilitySummary {
                    card: "Webcam".to_string(),
                    driver: "uvcvideo".to_string(),
                }),
                format: Ok(FormatSummary {
                    width: 640,
                    height: 480,
                    fourcc: Some("YUYV".to_string()),
                }),
            }),
        },
        DeviceReport {
            path: "/dev/video1".to_string(),
            summary: Ok(DeviceSummary {
                capabilities: Err("denied".to_string()),
                format: Err("busy".to_string()),
            }),
        },
        DeviceReport {
            path: "/dev/video2".to_string(),
            summary: Ok(DeviceSummary {
                capabilities: Err("denied".to_string()),
                format: Ok(FormatSummary { width: 1, height: 2, fourcc: None }),
            }),
        },
        DeviceReport { path: "/dev/video3".to_string(), summary: Err("gone".to_string()) },
    ];
    let lines = report(Ok(devices), &["cam-1", "cam\"2"]);
    assert_eq!(lines.len(), 10);
    assert_eq!(
        lines[3].1,
        "Detected 4 video device node(s): [\"/dev/video0\", \"/dev/video1\", \"/dev/video2\", \"/dev/video3\"]"
    );
    assert_eq!(
        lines[4].1,
        "Detected video device /dev/video0 => Webcam (uvcvideo) [640x480 YUYV]"
    );
    assert_eq!(
        lines[5].1,
        "Detected video device /dev/video1 => capabilities unavailable: denied [format unavailable: busy]"
    );
    assert_eq!(
        lines[6].1,
        "Detected video device /dev/video2 => capabilities unavailable: denied [1x2 unknown]"
    );
    assert_eq!(
        lines[7],
        (LogLevel::Warn, "Detected video device /dev/video3 but failed to open it: gone".to_string())
    );
    assert_eq!(
        lines[9].1,
        "Managed camera workers already active at startup: [\"cam-1\", \"cam\\\"2\"]"
    );
}

#[test]
fn devices_are_listed_as_paths_and_cameras_as_texts() {
    let name = "/dev/video'\"\u{e9}";
    let devices = vec![DeviceReport { path: name.to_string(), summary: Err("gone".to_string()) }];
    let lines = report(Ok(devices), &[name]);
    assert_eq!(
        lines[3].1,
        format!("Detected 1 video device node(s): {:?}", vec![std::path::PathBuf::from(name)])
    );
    assert_eq!(
        lines[6].1,
        format!("Managed camera workers already active at startup: {:?}", vec![name])
    );
}

#[test]
fn the_report_tells_of_a_failed_scan() {
    let lines = report(Err("denied".to_string()), &[]);
    assert_eq!(
        lines[3],
        (
            LogLevel::Warn,
            "Failed to enumerate /dev/video* nodes during startup: denied".to_string()
        )
    );
}

#[test]
fn every_endpoint_has_its_path() {
    let routes = routes();
    assert_eq!(routes.len(), 10);
    assert!(routes.contains(&("/api/v1/health", Endpoint::Health)));
    assert!(routes.contains(&("/api/v1/cameras", Endpoint::Cameras)));
    assert!(routes.contains(&("/api/v1/cameras/{camera_id}/snapshot.jpg", Endpoint::Snapshot)));
    assert!(routes.contains(&("/{camera_id}/stream", Endpoint::Stream)));
    assert!(routes.contains(&("/{camera_id}", Endpoint::Root)));
}

#[test]
fn actions_name_endpoints() {
    assert_eq!(action("snapshot"), Some(Endpoint::Snapshot));
    assert_eq!(action("stream"), Some(Endpoint::Stream));
    assert_eq!(action("state"), Some(Endpoint::State));
    assert_eq!(action("State"), None);
    assert_eq!(action(""), None);
    assert_eq!(compat_root(&Query::new()), None);
    assert_eq!(unsupported_action().status, 404);
    assert_eq!(unsupported_action().error, "Unsupported compatibility action");
}

#[test]
fn errors_are_answered_with_their_status() {
    let reply = |error: CameraManagerError| {
        let reply = error_response(&error);
        (reply.status, reply.error)
    };
    assert_eq!(
        reply(CameraManagerError::CameraNotFound("cam-1".to_string())),
        (404, "No camera worker found for cam-1".to_string())
    );
    assert_eq!(
        reply(CameraManagerError::InvalidBootstrapField("framerate")),
        (400, "Invalid value for bootstrap field framerate".to_string())
    );
    assert_eq!(
        reply(CameraManagerError::MissingBootstrapField("node")),
        (400, "Missing bootstrap field node".to_string())
    );
    assert_eq!(
        reply(CameraManagerError::UnsupportedCaptureEncoding("H264".to_string())),
        (400, "Unsupported capture encoding H264".to_string())
    );
    assert_eq!(
        reply(CameraManagerError::WorkerInitialization("no threads".to_string())),
        (500, "no threads".to_string())
    );
}

#[test]
fn answers_name_their_content() {
    assert_eq!(jpeg_headers(), vec![("content-type", "image/jpeg")]);
    assert_eq!(
        stream_headers(),
        vec![
            ("content-type", "multipart/x-mixed-replace; boundary=frame"),
            ("x-accel-buffering", "no"),
        ]
    );
}

#[test]
fn streams_send_every_frame_that_is_not_empty() {
    let frame = Bytes::from(vec![1u8, 2, 3, 4]);
    let step = stream_step(&StreamEvent::Subscribed(frame.clone()));
    assert!(step.mark_consumed && !step.done);
    let chunk = step.output.unwrap();
    assert_eq!(chunk, build_mjpeg_chunk(&frame));
    let text = b"Content-Type: image/jpeg";
    assert!(chunk.windows(text.len()).any(|window| window == text));
    let step = stream_step(&StreamEvent::Changed(frame.clone()));
    assert!(step.mark_consumed && !step.done);
    assert_eq!(step.output, Some(build_mjpeg_chunk(&frame)));
}

#[test]
fn streams_skip_empty_frames_and_end_when_closed() {
    let step = stream_step(&StreamEvent::Subscribed(Bytes::new()));
    assert!(step.mark_consumed && step.output.is_none() && !step.done);
    let step = stream_step(&StreamEvent::Changed(Bytes::new()));
    assert!(!step.mark_consumed && step.output.is_none() && !step.done);
    let step = stream_step(&StreamEvent::Closed);
    assert!(!step.mark_consumed && step.output.is_none() && step.done);
}

use std::sync::atomic::Ordering;

use bytes::Bytes;
use http::HeaderMap;
use http::HeaderValue;
use yv_streamer_software::capture::encoding_to_fourcc;
use yv_streamer_software::capture::CaptureAction;
use yv_streamer_software::capture::CaptureEvent;
use yv_streamer_software::capture::CaptureStep;
use yv_streamer_software::manager::CameraConfig;
use yv_streamer_software::manager::CameraManager;
use yv_streamer_software::manager::CameraManagerError;
use yv_streamer_software::manager::CameraWorker;
use yv_streamer_software::manager::Ensured;
use yv_streamer_software::request::Query;
use yv_streamer_software::worker::FrameNote;

fn full_query(framerate: &str) -> Query {
    let mut query = Query::new();
    query.insert("node".to_string(), "/dev/video0".to_string());
    query.insert("resolution".to_string(), "640x480".to_string());
    query.insert("framerate".to_string(), framerate.to_string());
    query.insert("capture_encoding".to_string(), "YUYV".to_string());
    query
}

fn start(manager: &mut CameraManager, camera_id: &str, query: &Query) {
    match manager.ensure_or_get_existing(camera_id, query, &HeaderMap::new(), None) {
        Ok(Ensured::Start(worker)) => manager.complete_start(worker, Ok(())).unwrap(),
        Ok(Ensured::Running) => panic!("already running"),
        Err(error) => panic!("refused: {}", error.message()),
    }
}

fn live() -> CameraWorker {
    CameraWorker::spawn_live(CameraConfig::test("cam-1"), 0).unwrap()
}

fn captured(frame: Vec<u8>) -> CaptureEvent {
    let mut config = CameraConfig::test("cam-1");
    config.capture_encoding = "MJPG".to_string();
    CaptureEvent::Captured(config.encode_captured(Ok(frame)))
}

fn capture_failed(error: &str) -> CaptureEvent {
    CaptureEvent::Captured(CameraConfig::test("cam-1").encode_captured(Err(error.to_string())))
}

fn willing_answer(step: &CaptureStep, frame: Vec<u8>) -> CaptureEvent {
    match step.action {
        CaptureAction::OpenDevice { .. } => CaptureEvent::Opened(Ok(())),
        CaptureAction::ReadFormat => CaptureEvent::FormatRead(Ok(())),
        CaptureAction::ApplyFormat { .. } => CaptureEvent::FormatApplied(Ok(())),
        CaptureAction::RequestRate { .. } => CaptureEvent::RateRequested(Ok(())),
        CaptureAction::StartStream { .. } => CaptureEvent::StreamStarted(Ok(())),
        CaptureAction::NextFrame => captured(frame),
        CaptureAction::Pause { .. } => CaptureEvent::Begin,
        CaptureAction::Finish => panic!("the loop has ended"),
    }
}

#[test]
fn watch_sender_requires_live_receiver_for_borrow_to_reflect_sent_value() {
    // When all receivers are dropped, send() returns Err and borrow() returns the initial value.
    // We must keep at least one receiver alive for the publish/borrow pattern to work.
    let (tx, rx) = tokio::sync::watch::channel(bytes::Bytes::new());

    let payload = bytes::Bytes::from_static(b"test-jpeg-data");
    let send_result = tx.send(payload.clone());
    assert!(send_result.is_ok(), "send should succeed with a live receiver");

    let borrowed = tx.borrow().clone();
    assert_eq!(borrowed, payload, "borrow() must return the sent value");
    drop(rx);
}

#[test]
fn registered_frames_are_served() {
    let mut manager = CameraManager::test_new();
    manager.register_static_frame(CameraConfig::test("cam-1"), vec![1, 2, 3, 4], 1000);
    assert!(matches!(
        manager.ensure_or_get_existing("cam-1", &Query::new(), &HeaderMap::new(), None),
        Ok(Ensured::Running)
    ));
    let worker = manager.get_existing("cam-1").unwrap();
    assert_eq!(&worker.current_frame()[..], &[1, 2, 3, 4]);
    let state = worker.snapshot();
    assert_eq!(state.status, "ready");
    assert_eq!(state.frames_captured, 1);
    assert_eq!(state.last_frame_at_ms, Some(1000));
    assert_eq!(state.last_error, None);
    assert!(!worker.is_stopped());
}

#[test]
fn unknown_cameras_are_not_found() {
    let mut manager = CameraManager::default();
    assert!(manager.get_existing("cam-1").is_none());
    match manager.ensure_or_get_existing("cam-1", &Query::new(), &HeaderMap::new(), None) {
        Err(CameraManagerError::CameraNotFound(camera_id)) => assert_eq!(camera_id, "cam-1"),
        _ => panic!("expected an unknown camera"),
    }
    assert!(manager.active_camera_ids().is_empty());
}

#[test]
fn a_first_request_starts_a_worker() {
    let mut manager = CameraManager::default();
    start(&mut manager, "cam-1", &full_query("30"));
    let worker = manager.get_existing("cam-1").unwrap();
    assert_eq!(worker.config(), &CameraConfig::test("cam-1"));
    assert_eq!(worker.generation(), 0);
    assert_eq!(worker.thread_name(), "capture-cam-1");
    assert!(worker.current_frame().is_empty());
    let state = worker.snapshot();
    assert_eq!(state.camera_id, "cam-1");
    assert_eq!(state.node, "/dev/video0");
    assert_eq!((state.width, state.height, state.framerate), (640, 480, 30));
    assert_eq!(state.capture_encoding, "YUYV");
    assert_eq!(state.status, "starting");
    assert_eq!(state.frames_captured, 0);
    assert_eq!(state.last_frame_at_ms, None);
    assert_eq!(state.clone().last_error, None);
}

#[test]
fn headers_can_start_a_worker() {
    let mut headers = HeaderMap::new();
    headers.insert("x-node", HeaderValue::from_static("/dev/video0"));
    headers.insert("x-resolution", HeaderValue::from_static("640x480"));
    headers.insert("x-framerate", HeaderValue::from_static("30"));
    headers.insert("x-capture-encoding", HeaderValue::from_static("yuyv"));
    let mut manager = CameraManager::default();
    match manager.ensure_or_get_existing("cam-1", &Query::new(), &headers, None) {
        Ok(Ensured::Start(worker)) => assert_eq!(worker.config(), &CameraConfig::test("cam-1")),
        _ => panic!("expected a new worker"),
    }
}

#[test]
fn the_same_request_reuses_the_worker() {
    let mut manager = CameraManager::default();
    start(&mut manager, "cam-1", &full_query("30"));
    assert!(matches!(
        manager.ensure_camera("cam-1", &full_query("30"), &HeaderMap::new(), None),
        Ok(Ensured::Running)
    ));
    assert!(matches!(
        manager.ensure_camera("cam-1", &Query::new(), &HeaderMap::new(), None),
        Ok(Ensured::Running)
    ));
    assert!(!manager.get_existing("cam-1").unwrap().is_stopped());
}

#[test]
fn a_changed_request_replaces_the_worker() {
    let mut manager = CameraManager::default();
    start(&mut manager, "cam-1", &full_query("30"));
    start(&mut manager, "cam-2", &full_query("30"));
    match manager.ensure_camera("cam-1", &full_query("15"), &HeaderMap::new(), None) {
        Ok(Ensured::Start(worker)) => {
            assert!(manager.get_existing("cam-1").unwrap().is_stopped());
            assert_eq!(worker.generation(), 1);
            manager.complete_start(worker, Ok(())).unwrap();
        }
        _ => panic!("expected a new worker"),
    }
    let worker = manager.get_existing("cam-1").unwrap();
    assert!(!worker.is_stopped());
    assert_eq!(worker.config().framerate, 15);
    assert!(!manager.get_existing("cam-2").unwrap().is_stopped());
}

#[test]
fn a_stopped_worker_publishes_its_last_frame_after_it_was_replaced() {
    let mut manager = CameraManager::default();
    start(&mut manager, "cam-1", &full_query("30"));
    let (mut receiver, _) = manager.get_existing("cam-1").unwrap().subscribe();
    start(&mut manager, "cam-1", &full_query("15"));
    assert_eq!(manager.get_existing("cam-1").unwrap().generation(), 1);
    assert!(receiver.has_changed().is_ok());
    let step = manager.capture_step("cam-1", 0, captured(vec![1, 2]), 5);
    assert!(matches!(step.action, CaptureAction::Finish));
    assert_eq!(step.note, FrameNote::First);
    assert_eq!(&receiver.borrow_and_update()[..], &[1, 2]);
    assert!(receiver.has_changed().is_err());
    assert!(manager.get_existing("cam-1").unwrap().current_frame().is_empty());
    let step = manager.capture_step("cam-1", 0, captured(vec![3]), 6);
    assert!(matches!(step.action, CaptureAction::Finish));
    assert_eq!(step.note, FrameNote::Quiet);
}

#[test]
fn a_running_worker_captures_on_behind_a_registered_frame() {
    let mut manager = CameraManager::default();
    start(&mut manager, "cam-1", &full_query("30"));
    let (receiver, _) = manager.get_existing("cam-1").unwrap().subscribe();
    manager.register_static_frame(CameraConfig::test("cam-1"), vec![7], 1);
    for count in 1..=3u8 {
        let step = manager.capture_step("cam-1", 0, captured(vec![count]), 5);
        assert!(matches!(step.action, CaptureAction::NextFrame));
        assert_eq!(&receiver.borrow()[..], &[count]);
    }
    let worker = manager.get_existing("cam-1").unwrap();
    assert_eq!(worker.generation(), 1);
    assert_eq!(&worker.current_frame()[..], &[7]);
    assert_eq!(worker.snapshot().frames_captured, 1);
    manager.register_static_frame(CameraConfig::test("cam-1"), vec![8], 2);
    let step = manager.capture_step("cam-1", 0, captured(vec![9]), 6);
    assert!(matches!(step.action, CaptureAction::NextFrame));
    assert_eq!(&receiver.borrow()[..], &[9]);
}

#[test]
fn a_worker_without_a_loop_is_let_go_when_replaced() {
    let mut manager = CameraManager::default();
    manager.register_static_frame(CameraConfig::test("cam-1"), vec![7], 1);
    assert!(!manager.get_existing("cam-1").unwrap().is_capturing());
    let (receiver, _) = manager.get_existing("cam-1").unwrap().subscribe();
    manager.register_static_frame(CameraConfig::test("cam-1"), vec![8], 2);
    assert!(receiver.has_changed().is_err());

    start(&mut manager, "cam-2", &full_query("30"));
    assert!(manager.get_existing("cam-2").unwrap().is_capturing());
    let (receiver, _) = manager.get_existing("cam-2").unwrap().subscribe();
    assert!(manager.stop_existing("cam-2"));
    let step = manager.capture_step("cam-2", 0, CaptureEvent::Begin, 3);
    assert!(matches!(step.action, CaptureAction::Finish));
    assert!(!manager.get_existing("cam-2").unwrap().is_capturing());
    assert!(receiver.has_changed().is_ok());
    manager.register_static_frame(CameraConfig::test("cam-2"), vec![8], 4);
    assert!(receiver.has_changed().is_err());
}

#[test]
fn workers_can_be_told_to_stop() {
    let mut manager = CameraManager::default();
    assert!(!manager.stop_existing("cam-1"));
    start(&mut manager, "cam-1", &full_query("30"));
    start(&mut manager, "cam-2", &full_query("30"));
    assert!(manager.stop_existing("cam-1"));
    assert!(manager.get_existing("cam-1").unwrap().is_stopped());
    assert!(!manager.get_existing("cam-2").unwrap().is_stopped());
}

#[test]
fn a_thread_that_cannot_start_is_reported() {
    let mut manager = CameraManager::default();
    match manager.ensure_camera("cam-1", &full_query("30"), &HeaderMap::new(), None) {
        Ok(Ensured::Start(worker)) => {
            match manager.complete_start(worker, Err("no threads".to_string())) {
                Err(CameraManagerError::WorkerInitialization(message)) => {
                    assert_eq!(message, "no threads")
                }
                _ => panic!("expected a failure"),
            }
        }
        _ => panic!("expected a new worker"),
    }
    assert!(manager.get_existing("cam-1").is_none());
}

#[test]
fn an_unsupported_encoding_is_refused_and_stops_the_worker() {
    let mut manager = CameraManager::default();
    start(&mut manager, "cam-1", &full_query("30"));
    let mut query = Query::new();
    query.insert("capture_encoding".to_string(), "h264".to_string());
    match manager.ensure_camera("cam-1", &query, &HeaderMap::new(), None) {
        Err(CameraManagerError::UnsupportedCaptureEncoding(encoding)) => {
            assert_eq!(encoding, "H264")
        }
        _ => panic!("expected a refusal"),
    }
    let worker = manager.get_existing("cam-1").unwrap();
    assert!(worker.is_stopped());
    assert_eq!(worker.config().capture_encoding, "YUYV");
}

#[test]
fn a_faulty_request_changes_nothing() {
    let mut manager = CameraManager::default();
    start(&mut manager, "cam-1", &full_query("30"));
    let mut query = Query::new();
    query.insert("resolution".to_string(), "big".to_string());
    assert!(matches!(
        manager.ensure_camera("cam-1", &query, &HeaderMap::new(), None),
        Err(CameraManagerError::InvalidBootstrapField("resolution"))
    ));
    assert!(!manager.get_existing("cam-1").unwrap().is_stopped());
}

#[test]
fn a_registered_camera_in_lower_case_is_asked_for_anew() {
    let mut manager = CameraManager::default();
    let mut config = CameraConfig::test("cam-1");
    config.capture_encoding = "yuyv".to_string();
    manager.register_static_frame(config, vec![1], 1);
    assert!(matches!(
        manager.ensure_camera("cam-1", &Query::new(), &HeaderMap::new(), None),
        Ok(Ensured::Start(_))
    ));
}

#[test]
fn ids_are_sorted_and_listed_once() {
    let mut manager = CameraManager::default();
    for camera_id in ["cam-2", "cam-10", "a", "cam-2", "\u{e9}", "Z", "cam-"] {
        manager.register_static_frame(CameraConfig::test(camera_id), vec![1], 1);
    }
    assert_eq!(
        manager.active_camera_ids(),
        vec!["Z", "a", "cam-", "cam-10", "cam-2", "\u{e9}"]
    );
    let mut listed: Vec<String> =
        manager.list_cameras().into_iter().map(|state| state.camera_id).collect();
    listed.sort();
    assert_eq!(listed, manager.active_camera_ids());
    assert_eq!(manager.get_existing("cam-2").unwrap().generation(), 1);
}

#[test]
fn published_frames_are_shown_and_counted() {
    let mut worker = live();
    let (receiver, consumed) = worker.subscribe();
    assert!(!consumed.load(Ordering::Relaxed));
    assert_eq!(worker.publish_frame(Bytes::from(vec![1u8, 2]), 10), FrameNote::First);
    assert_eq!(&worker.current_frame()[..], &[1, 2]);
    assert_eq!(&receiver.borrow()[..], &[1, 2]);
    assert!(receiver.has_changed().unwrap());
    assert_eq!(worker.publish_frame(Bytes::from(vec![3u8]), 20), FrameNote::Quiet);
    assert_eq!(&worker.current_frame()[..], &[3]);
    let state = worker.snapshot();
    assert_eq!(state.status, "ready");
    assert_eq!(state.frames_captured, 2);
    assert_eq!(state.last_frame_at_ms, Some(20));
}

#[test]
fn frames_are_kept_without_subscribers() {
    let mut worker = live();
    worker.publish_frame(Bytes::from(vec![5u8]), 1);
    assert_eq!(&worker.current_frame()[..], &[5]);
    let (late, _) = worker.subscribe();
    assert_eq!(&late.borrow()[..], &[5]);
}

#[test]
fn every_three_hundredth_frame_is_noted() {
    let mut worker = live();
    for count in 1..=600u64 {
        let note = worker.publish_frame(Bytes::from(vec![1u8]), 1);
        let expected = match count {
            1 => FrameNote::First,
            300 => FrameNote::Milestone(300),
            600 => FrameNote::Milestone(600),
            _ => FrameNote::Quiet,
        };
        assert_eq!(note, expected);
    }
}

#[test]
fn the_consumed_flag_is_shared() {
    let worker = live();
    let (_, first) = worker.subscribe();
    let (_, second) = worker.subscribe();
    first.store(true, Ordering::Relaxed);
    assert!(second.load(Ordering::Relaxed));
}

#[test]
fn errors_are_shown_until_the_status_changes() {
    let mut worker = live();
    worker.publish_frame(Bytes::from(vec![5u8]), 1);
    worker.set_error("broken".to_string());
    let state = worker.snapshot();
    assert_eq!(state.status, "error");
    assert_eq!(state.last_error, Some("broken".to_string()));
    assert_eq!(state.frames_captured, 1);
    assert_eq!(&worker.current_frame()[..], &[5]);
    worker.set_status("opening");
    let state = worker.snapshot();
    assert_eq!(state.status, "opening");
    assert_eq!(state.last_error, None);
    assert_eq!(state.last_frame_at_ms, Some(1));
}

#[test]
fn live_workers_need_a_supported_encoding() {
    let mut config = CameraConfig::test("cam-1");
    config.capture_encoding = "MJPG".to_string();
    assert!(CameraWorker::spawn_live(config.clone(), 3).is_ok());
    config.capture_encoding = "RGB3".to_string();
    match CameraWorker::spawn_live(config, 3) {
        Err(CameraManagerError::UnsupportedCaptureEncoding(encoding)) => {
            assert_eq!(encoding, "RGB3")
        }
        _ => panic!("expected a refusal"),
    }
}

#[test]
fn codes_are_the_bytes_of_the_encoding() {
    assert_eq!(encoding_to_fourcc("YUYV"), Some(*b"YUYV"));
    assert_eq!(encoding_to_fourcc("MJPG"), Some(*b"MJPG"));
    assert_eq!(encoding_to_fourcc("mjpg"), None);
    assert_eq!(encoding_to_fourcc(""), None);
}

#[test]
fn a_willing_device_is_brought_to_streaming() {
    let mut worker = live();
    let step = worker.capture_step(CaptureEvent::Begin, 1);
    assert!(matches!(step.action, CaptureAction::OpenDevice { ref node } if node == "/dev/video0"));
    assert_eq!(worker.snapshot().status, "opening");
    let step = worker.capture_step(CaptureEvent::Opened(Ok(())), 2);
    assert!(matches!(step.action, CaptureAction::ReadFormat));
    let step = worker.capture_step(CaptureEvent::FormatRead(Ok(())), 3);
    assert!(matches!(
        step.action,
        CaptureAction::ApplyFormat { width: 640, height: 480, fourcc } if fourcc == *b"YUYV"
    ));
    let step = worker.capture_step(CaptureEvent::FormatApplied(Ok(())), 4);
    assert!(matches!(step.action, CaptureAction::RequestRate { framerate: 30 }));
    let refused = CaptureEvent::RateRequested(Err("not supported".to_string()));
    let step = worker.capture_step(refused, 5);
    assert!(matches!(step.action, CaptureAction::StartStream { buffers: 4 }));
    assert_eq!(worker.snapshot().last_error, None);
    let step = worker.capture_step(CaptureEvent::StreamStarted(Ok(())), 6);
    assert!(matches!(step.action, CaptureAction::NextFrame));
    assert_eq!(worker.snapshot().status, "streaming");
    let step = worker.capture_step(captured(vec![9, 9]), 7);
    assert!(matches!(step.action, CaptureAction::NextFrame));
    assert_eq!(step.note, FrameNote::First);
    assert_eq!(&worker.current_frame()[..], &[9, 9]);
    assert_eq!(worker.snapshot().last_frame_at_ms, Some(7));
}

#[test]
fn failures_are_recorded_and_retried() {
    let busy = || Err("busy".to_string());
    let failures = [
        (CaptureEvent::Opened(busy()), "Failed to open /dev/video0: busy"),
        (CaptureEvent::FormatRead(busy()), "Failed to read device format: busy"),
        (CaptureEvent::FormatApplied(busy()), "Failed to set device format: busy"),
        (CaptureEvent::StreamStarted(busy()), "busy"),
        (capture_failed("busy"), "busy"),
    ];
    for (event, text) in failures {
        let mut worker = live();
        let step = worker.capture_step(event, 1);
        assert!(matches!(
            step.action,
            CaptureAction::Pause { millis: 500, ref error } if error == text
        ));
        assert_eq!(worker.snapshot().status, "error");
        assert_eq!(worker.snapshot().last_error, Some(text.to_string()));
        let step = worker.capture_step(CaptureEvent::Begin, 2);
        assert!(matches!(step.action, CaptureAction::OpenDevice { .. }));
        assert_eq!(worker.snapshot().last_error, None);
    }
}

#[test]
fn a_format_without_a_code_is_a_failure() {
    let mut config = CameraConfig::test("cam-1");
    config.capture_encoding = "RGB3".to_string();
    let mut worker = CameraWorker::from_static_frame(config, vec![1], 0, 1);
    let step = worker.capture_step(CaptureEvent::FormatRead(Ok(())), 2);
    assert!(matches!(step.action, CaptureAction::Pause { .. }));
    assert_eq!(
        worker.snapshot().last_error,
        Some("Unsupported capture encoding RGB3".to_string())
    );
}

#[test]
fn a_stopped_worker_finishes() {
    let mut worker = live();
    assert!(worker.is_capturing());
    worker.stop();
    let step = worker.capture_step(CaptureEvent::StreamStarted(Ok(())), 1);
    assert!(matches!(step.action, CaptureAction::Finish));
    assert!(!worker.is_capturing());
    let step = worker.capture_step(captured(vec![1]), 1);
    assert!(matches!(step.action, CaptureAction::Finish));
    assert_eq!(&worker.current_frame()[..], &[1]);
    let step = worker.capture_step(capture_failed("gone"), 1);
    assert!(matches!(step.action, CaptureAction::Pause { .. }));
    let step = worker.capture_step(CaptureEvent::Begin, 1);
    assert!(matches!(step.action, CaptureAction::Finish));
}

#[test]
fn captured_frames_are_encoded_by_configuration() {
    let mut config = CameraConfig::test("cam-1");
    config.width = 16;
    config.height = 8;
    let image = config.encode_captured(Ok(vec![128; 256])).into_image().unwrap();
    assert_eq!(&image[..2], &[0xff, 0xd8]);
    assert!(config.encode_captured(Ok(vec![128; 250])).into_image().is_err());
    assert_eq!(
        config.encode_captured(Err("gone".to_string())).into_image(),
        Err("gone".to_string())
    );
    let mut worker = CameraWorker::spawn_live(config.clone(), 0).unwrap();
    worker.capture_step(CaptureEvent::Captured(config.encode_captured(Ok(vec![128; 256]))), 1);
    assert_eq!(&worker.current_frame()[..], &image[..]);
    let short = CaptureEvent::Captured(config.encode_captured(Ok(vec![128; 250])));
    let step = worker.capture_step(short, 2);
    assert!(matches!(step.action, CaptureAction::Pause { .. }));
    assert_eq!(worker.snapshot().status, "error");
    assert_eq!(&worker.current_frame()[..], &image[..]);
    config.capture_encoding = "MJPG".to_string();
    assert_eq!(config.encode_captured(Ok(vec![1, 2])).into_image(), Ok(vec![1, 2]));
}

#[test]
fn states_fit_together_at_every_step() {
    let mut worker = live();
    let events = vec![
        CaptureEvent::Begin,
        CaptureEvent::Opened(Err("busy".to_string())),
        CaptureEvent::Begin,
        CaptureEvent::Opened(Ok(())),
        CaptureEvent::FormatRead(Ok(())),
        CaptureEvent::FormatApplied(Ok(())),
        CaptureEvent::RateRequested(Ok(())),
        CaptureEvent::StreamStarted(Ok(())),
        captured(vec![1]),
        capture_failed("gone"),
        CaptureEvent::Begin,
        captured(vec![2]),
    ];
    for event in events {
        worker.capture_step(event, 3);
        let state = worker.snapshot();
        assert_eq!(state.last_error.is_some(), state.status == "error");
        assert_eq!(state.last_frame_at_ms.is_some(), state.frames_captured >= 1);
        assert_eq!(state.camera_id, worker.config().camera_id);
    }
    assert_eq!(worker.snapshot().frames_captured, 2);
}

#[test]
fn managed_workers_take_their_steps() {
    let mut manager = CameraManager::default();
    start(&mut manager, "cam-1", &full_query("30"));
    let step = manager.capture_step("cam-1", 0, CaptureEvent::Begin, 1);
    assert!(matches!(step.action, CaptureAction::OpenDevice { .. }));
    assert_eq!(manager.get_existing("cam-1").unwrap().snapshot().status, "opening");
    let step = manager.capture_step("cam-9", 0, CaptureEvent::Begin, 1);
    assert!(matches!(step.action, CaptureAction::Finish));
    let step = manager.capture_step("cam-1", 1, CaptureEvent::Begin, 1);
    assert!(matches!(step.action, CaptureAction::Finish));
}

#[test]
fn steps_of_one_camera_leave_the_others() {
    let mut manager = CameraManager::default();
    start(&mut manager, "cam-1", &full_query("30"));
    start(&mut manager, "cam-2", &full_query("30"));
    let mut event = CaptureEvent::Begin;
    for now in 0..8 {
        let step = manager.capture_step("cam-1", 0, event, now);
        event = willing_answer(&step, vec![now as u8]);
    }
    assert_eq!(manager.get_existing("cam-1").unwrap().snapshot().frames_captured, 2);
    let other = manager.get_existing("cam-2").unwrap().snapshot();
    assert_eq!(other.status, "starting");
    assert_eq!(other.frames_captured, 0);
    assert_eq!(manager.active_camera_ids(), vec!["cam-1", "cam-2"]);
}

use webcam_workspace::devices::{device_label, str_is_blank, CameraDevice, DeviceIndex};
use webcam_workspace::frames::ProcessedFrame;
use webcam_workspace::messages::{found_cameras_text, streaming_text};
use webcam_workspace::viewer::{CameraViewer, ChannelPoll, MAX_MESSAGES_PER_DRAIN};
use webcam_workspace::worker::{frame_pacing_delay_nanos, CameraWorker, StreamMessage, WorkerEvent};

fn device(name: &str, index: u32) -> CameraDevice {
    CameraDevice { name: name.to_string(), index: DeviceIndex::Index(index) }
}

fn frame(diff: Option<Vec<u8>>) -> ProcessedFrame {
    ProcessedFrame { width: 1, height: 1, pixels: vec![1, 2, 3], diff_pixels: diff }
}

#[test]
fn label_is_name_or_index() {
    assert_eq!(device_label(&device("HD Webcam", 0)), "HD Webcam");
    assert_eq!(device_label(&device("", 3)), "Camera 3");
    assert_eq!(device_label(&device(" \t\u{3000}\n", 12)), "Camera 12");
    let net = CameraDevice { name: String::new(), index: DeviceIndex::Name("rtsp://cam".to_string()) };
    assert_eq!(device_label(&net), "Camera rtsp://cam");
    assert_eq!(device_label(&device(" x ", 1)), " x ");
}

#[test]
fn blank_matches_trim() {
    for s in ["", " ", "\u{85}\u{a0}", "\u{200b}", "a", " \u{2029} ", "\u{1680}z"] {
        assert_eq!(str_is_blank(s), s.trim().is_empty(), "{:?}", s);
    }
}

#[test]
fn message_texts() {
    assert_eq!(found_cameras_text(2), "Found 2 camera(s).");
    assert_eq!(streaming_text("Cam", 640, 480, 30), "Streaming Cam at 640x480 30 FPS.");
}

#[test]
fn refresh_selects_first_and_reports() {
    let mut v = CameraViewer::new();
    assert!(!v.can_start());
    assert_eq!(v.selected_device_text(), "No camera selected");
    let stop = v.apply_device_query(Ok(vec![device("A", 0), device("B", 1)]));
    assert!(!stop);
    assert_eq!(v.selected_device, Some(0));
    assert_eq!(v.status, "Found 2 camera(s).");
    assert!(v.can_start());
    v.select_device(1);
    assert_eq!(v.selected_device_text(), "B");
    v.apply_device_query(Ok(vec![device("A", 0), device("B", 1), device("C", 2)]));
    assert_eq!(v.selected_device, Some(1));
    v.apply_device_query(Ok(vec![device("A", 0)]));
    assert_eq!(v.selected_device, Some(0));
    v.apply_device_query(Ok(vec![]));
    assert_eq!(v.selected_device, None);
    assert_eq!(v.status, "No cameras found.");
}

#[test]
fn query_error_stops_everything() {
    let mut v = CameraViewer::new();
    v.apply_device_query(Ok(vec![device("A", 0)]));
    let req = v.start_selected_camera().expect("starts");
    assert!(!req.stop_previous);
    assert!(v.streaming);
    let stop = v.apply_device_query(Err("backend failed".to_string()));
    assert!(stop);
    assert!(!v.streaming);
    assert!(v.devices.is_empty());
    assert_eq!(v.selected_device, None);
    assert_eq!(v.status, "Could not query cameras: backend failed");
}

#[test]
fn start_without_selection_reports() {
    let mut v = CameraViewer::new();
    assert!(v.start_selected_camera().is_none());
    assert_eq!(v.status, "Choose a camera first.");
    assert!(!v.streaming);
}

#[test]
fn start_with_stale_selection_reports() {
    let mut v = CameraViewer::new();
    v.apply_device_query(Ok(vec![device("A", 0)]));
    v.selected_device = Some(4);
    assert!(v.start_selected_camera().is_none());
    assert_eq!(v.status, "Selected camera is no longer available.");
}

#[test]
fn start_restarts_a_running_stream() {
    let mut v = CameraViewer::new();
    v.apply_device_query(Ok(vec![device("", 5)]));
    let first = v.start_selected_camera().unwrap();
    assert_eq!(first.label, "Camera 5");
    assert!(matches!(first.index, DeviceIndex::Index(5)));
    assert_eq!(v.status, "Starting camera...");
    v.record_frame_upload(&frame(Some(vec![0; 5000])));
    assert_eq!(v.difference_chi_square.sample_count(), 1);
    let second = v.start_selected_camera().unwrap();
    assert!(second.stop_previous);
    assert!(v.streaming);
    assert!(!v.has_frame_texture);
    assert_eq!(v.difference_chi_square.sample_count(), 0);
    assert_eq!(v.difference_chi_square.pending_len(), 0);
}

#[test]
fn stop_camera_clears_images_and_tracker() {
    let mut v = CameraViewer::new();
    v.apply_device_query(Ok(vec![device("A", 0)]));
    v.start_selected_camera();
    v.record_frame_upload(&frame(Some(vec![1; 10])));
    assert!(v.has_difference_texture);
    assert!(v.stop_camera());
    assert!(!v.streaming && !v.has_frame_texture && !v.has_difference_texture);
    assert_eq!(v.difference_chi_square.pending_len(), 0);
    assert!(!v.stop_camera());
}

#[test]
fn frame_without_difference_drops_difference_image() {
    let mut v = CameraViewer::new();
    v.record_frame_upload(&frame(Some(vec![1; 10])));
    v.record_frame_upload(&frame(None));
    assert!(v.has_frame_texture);
    assert!(!v.has_difference_texture);
    assert_eq!(v.difference_chi_square.pending_len(), 10);
}

#[test]
fn drain_keeps_newest_frame_and_status() {
    let mut v = CameraViewer::new();
    v.apply_device_query(Ok(vec![device("A", 0)]));
    v.start_selected_camera();
    let mut d = v.begin_drain();
    let mut polls = vec![
        ChannelPoll::Received(StreamMessage::Status("Streaming".to_string())),
        ChannelPoll::Received(StreamMessage::Frame(frame(None))),
        ChannelPoll::Received(StreamMessage::Frame(ProcessedFrame { width: 2, height: 2, pixels: vec![], diff_pixels: None })),
        ChannelPoll::Empty,
        ChannelPoll::Received(StreamMessage::Status("never".to_string())),
    ]
    .into_iter();
    while v.should_poll(&d) {
        v.drain_step(&mut d, polls.next().unwrap());
    }
    assert_eq!(d.polls, 4);
    let latest = v.finish_drain(d).unwrap();
    assert_eq!(latest.width, 2);
    assert_eq!(v.status, "Streaming");
    assert!(v.streaming);
}

#[test]
fn drain_stops_after_the_limit() {
    let mut v = CameraViewer::new();
    v.apply_device_query(Ok(vec![device("A", 0)]));
    v.start_selected_camera();
    let mut d = v.begin_drain();
    let mut n = 0;
    while v.should_poll(&d) {
        v.drain_step(&mut d, ChannelPoll::Received(StreamMessage::Status(format!("s{n}"))));
        n += 1;
    }
    assert_eq!(n, MAX_MESSAGES_PER_DRAIN);
    assert_eq!(v.status, "s7");
}

#[test]
fn drain_error_ends_stream() {
    let mut v = CameraViewer::new();
    v.apply_device_query(Ok(vec![device("A", 0)]));
    v.start_selected_camera();
    v.record_frame_upload(&frame(None));
    let mut d = v.begin_drain();
    v.drain_step(&mut d, ChannelPoll::Received(StreamMessage::Frame(frame(None))));
    v.drain_step(&mut d, ChannelPoll::Received(StreamMessage::Error("Could not read frame: x".to_string())));
    assert!(!v.should_poll(&d));
    assert!(!v.streaming);
    assert!(!v.has_frame_texture);
    assert_eq!(v.status, "Could not read frame: x");
    assert!(v.finish_drain(d).is_some());
}

#[test]
fn drain_disconnect_ends_stream() {
    let mut v = CameraViewer::new();
    v.apply_device_query(Ok(vec![device("A", 0)]));
    v.start_selected_camera();
    let mut d = v.begin_drain();
    v.drain_step(&mut d, ChannelPoll::Disconnected);
    assert!(!v.should_poll(&d));
    assert!(v.streaming);
    assert!(v.finish_drain(d).is_none());
    assert!(!v.streaming);
}

#[test]
fn worker_reports_errors_and_stops() {
    let mut w = CameraWorker::new("Cam".to_string());
    let cases = [
        (WorkerEvent::CameraCreateFailed("e1".to_string()), "Could not create camera: e1"),
        (WorkerEvent::StreamOpenFailed("e2".to_string()), "Could not open camera stream: e2"),
        (WorkerEvent::FrameReadFailed("e3".to_string()), "Could not read frame: e3"),
        (WorkerEvent::FrameDecodeFailed("e4".to_string()), "Could not decode frame: e4"),
    ];
    for (event, text) in cases {
        let a = w.step(event);
        assert!(!a.keep_running);
        match a.message {
            StreamMessage::Error(s) => assert_eq!(s, text),
            _ => panic!("expected an error"),
        }
    }
}

#[test]
fn worker_reports_format() {
    let mut w = CameraWorker::new("Cam".to_string());
    let a = w.step(WorkerEvent::StreamOpened { width: 1280, height: 720, frame_rate: 60 });
    assert!(a.keep_running);
    match a.message {
        StreamMessage::Status(s) => assert_eq!(s, "Streaming Cam at 1280x720 60 FPS."),
        _ => panic!("expected a status"),
    }
}

#[test]
fn worker_differences_frames_of_equal_size() {
    let mut w = CameraWorker::new("Cam".to_string());
    let first = w.step(WorkerEvent::FrameDecoded { width: 2, height: 1, pixels: vec![10, 20, 30, 40, 50, 60] });
    match first.message {
        StreamMessage::Frame(f) => assert!(f.diff_pixels.is_none()),
        _ => panic!("expected a frame"),
    }
    let second = w.step(WorkerEvent::FrameDecoded { width: 2, height: 1, pixels: vec![12, 20, 25, 40, 50, 0] });
    match second.message {
        StreamMessage::Frame(f) => {
            assert_eq!(f.pixels, vec![12, 20, 25, 40, 50, 0]);
            assert_eq!(f.diff_pixels, Some(vec![2, 0, 5, 0, 0, 60]));
        }
        _ => panic!("expected a frame"),
    }
    let resized = w.step(WorkerEvent::FrameDecoded { width: 1, height: 2, pixels: vec![0; 6] });
    match resized.message {
        StreamMessage::Frame(f) => assert!(f.diff_pixels.is_none()),
        _ => panic!("expected a frame"),
    }
    assert_eq!(w.previous_frame.as_ref().unwrap().width, 1);
}

#[test]
fn pacing_waits_out_sixteen_milliseconds() {
    assert_eq!(frame_pacing_delay_nanos(0), 16_000_000);
    assert_eq!(frame_pacing_delay_nanos(10_000_000), 6_000_000);
    assert_eq!(frame_pacing_delay_nanos(16_000_000), 0);
    assert_eq!(frame_pacing_delay_nanos(99_000_000), 0);
}

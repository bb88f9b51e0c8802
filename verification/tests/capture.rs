use chronos::capture::{encode_image_to_frame, frame_from_encoding, select_primary_monitor, timestamp_from_reading, RawImage};
use chronos::capture_loop::{CaptureLoop, LoopAction, LoopEvent, LoopPhase};
use chronos::error::ChronosError;
use chronos::models::{Frame, Timestamp};

fn sample_frame(id: u128) -> Frame {
    Frame { id, timestamp: Timestamp { secs: 0, nanos: 0 }, image_data: vec![1, 2, 3], width: 1, height: 1 }
}

fn image_of(img: image::RgbaImage) -> RawImage {
    let (w, h) = (img.width(), img.height());
    RawImage::from_rgba(w, h, img.into_raw()).unwrap()
}

#[test]
fn test_encode_image_to_frame() {
    let mut img = image::RgbaImage::new(2, 2);
    img.put_pixel(0, 0, image::Rgba([255, 0, 0, 255]));

    let result = encode_image_to_frame(image_of(img));
    assert!(result.is_ok());

    let frame = result.unwrap();
    assert_eq!(frame.width, 2);
    assert_eq!(frame.height, 2);
    assert_eq!(&frame.image_data[0..8], &[137, 80, 78, 71, 13, 10, 26, 10]);
}

#[test]
fn test_encoded_frame_decodes_to_same_pixels() {
    let mut img = image::RgbaImage::new(3, 1);
    img.put_pixel(1, 0, image::Rgba([1, 2, 3, 4]));
    let frame = encode_image_to_frame(image_of(img.clone())).unwrap();
    let back = image::load_from_memory(&frame.image_data).unwrap().to_rgba8();
    assert_eq!(back, img);
}

#[test]
fn test_encode_empty_image_fails() {
    let result = encode_image_to_frame(RawImage::from_rgba(0, 0, vec![]).unwrap());
    assert_eq!(result.unwrap_err(), ChronosError::Capture("Cannot encode empty image".to_string()));
    let result = encode_image_to_frame(RawImage::from_rgba(5, 0, vec![]).unwrap());
    assert!(matches!(result, Err(ChronosError::Capture(_))));
}

#[test]
fn test_raw_image_needs_four_bytes_per_pixel() {
    assert!(RawImage::from_rgba(2, 2, vec![0; 16]).is_some());
    assert!(RawImage::from_rgba(2, 2, vec![0; 15]).is_none());
    assert!(RawImage::from_rgba(2, 2, vec![0; 17]).is_none());
}

#[test]
fn test_frame_from_encoding() {
    let t = Timestamp { secs: 10, nanos: 20 };
    let frame = frame_from_encoding(4, 3, Ok(vec![9, 9]), 77, t).unwrap();
    assert_eq!((frame.id, frame.timestamp, frame.image_data, frame.width, frame.height), (77, t, vec![9, 9], 4, 3));
    assert_eq!(
        frame_from_encoding(4, 3, Err("boom".to_string()), 77, t).unwrap_err(),
        ChronosError::Capture("Failed to encode PNG: boom".to_string())
    );
}

#[test]
fn test_select_primary_monitor() {
    assert_eq!(select_primary_monitor(&vec![Ok(false), Ok(true), Ok(true)]), Ok(1));
    assert_eq!(
        select_primary_monitor(&vec![Ok(false), Ok(false)]),
        Err(ChronosError::Capture("No primary monitor detected".to_string()))
    );
    assert_eq!(
        select_primary_monitor(&vec![]),
        Err(ChronosError::Capture("No primary monitor detected".to_string()))
    );
    assert_eq!(
        select_primary_monitor(&vec![Ok(false), Err("no xrandr".to_string()), Ok(true)]),
        Err(ChronosError::Capture("Failed to check if monitor is primary: no xrandr".to_string()))
    );
    // A failure after the primary monitor does not matter.
    assert_eq!(select_primary_monitor(&vec![Ok(true), Err("late".to_string())]), Ok(0));
}

#[test]
fn test_capture_loop_cycle() {
    let mut l = CaptureLoop::new(1);
    assert_eq!(l.step(LoopEvent::Start, false, 0), LoopAction::CaptureFrame);
    l.hold(sample_frame(0));
    assert_eq!(l.step(LoopEvent::FrameReady, false, 5), LoopAction::TrySend);
    l.take_frame();
    assert_eq!(l.step(LoopEvent::Sent, false, 6), LoopAction::Sleep { millis: 1 });
    // The wait starts when the short pause ends.
    assert_eq!(l.step(LoopEvent::Slept, false, 10), LoopAction::Sleep { millis: 100 });
    assert_eq!(l.phase, LoopPhase::Waiting { since_ms: 10 });
    assert_eq!(l.step(LoopEvent::Slept, false, 600), LoopAction::Sleep { millis: 100 });
    assert_eq!(l.step(LoopEvent::Slept, false, 1009), LoopAction::Sleep { millis: 100 });
    // A full second later a new cycle begins.
    assert_eq!(l.step(LoopEvent::Slept, false, 1010), LoopAction::CaptureFrame);
}

#[test]
fn test_start_capture_loop_shutdown() {
    // Immediate shutdown: the loop ends before capturing anything, and stays ended.
    let mut l = CaptureLoop::new(1);
    assert_eq!(l.step(LoopEvent::Start, true, 0), LoopAction::Exit);
    assert_eq!(l.phase, LoopPhase::Stopped);
    assert_eq!(l.step(LoopEvent::Slept, false, 0), LoopAction::Exit);
}

#[test]
fn test_start_capture_loop_success() {
    let mut l = CaptureLoop::new(0);
    assert_eq!(l.step(LoopEvent::Start, false, 0), LoopAction::CaptureFrame);
    l.hold(sample_frame(0));
    assert_eq!(l.step(LoopEvent::FrameReady, false, 0), LoopAction::TrySend);
    l.take_frame();
    assert_eq!(l.step(LoopEvent::Sent, false, 0), LoopAction::Sleep { millis: 1 });
    // With a zero interval the next cycle follows the short pause.
    assert_eq!(l.step(LoopEvent::Slept, false, 1), LoopAction::CaptureFrame);
    l.hold(sample_frame(0));
    assert_eq!(l.step(LoopEvent::FrameReady, true, 2), LoopAction::Exit);
}

#[test]
fn test_start_capture_loop_send_failure() {
    let mut l = CaptureLoop::new(0);
    l.step(LoopEvent::Start, false, 0);
    l.hold(sample_frame(0));
    l.step(LoopEvent::FrameReady, false, 0);
    assert_eq!(l.step(LoopEvent::ChannelClosed, false, 0), LoopAction::Exit);
    assert_eq!(l.phase, LoopPhase::Stopped);
}

#[test]
fn test_start_capture_loop_error() {
    // A failed capture does not end the loop: it pauses and captures again.
    let mut l = CaptureLoop::new(0);
    assert_eq!(l.step(LoopEvent::Start, false, 0), LoopAction::CaptureFrame);
    assert_eq!(l.step(LoopEvent::CaptureFailed, false, 0), LoopAction::Sleep { millis: 1 });
    assert_eq!(l.step(LoopEvent::Slept, false, 1), LoopAction::CaptureFrame);
    assert_eq!(l.step(LoopEvent::CaptureFailed, false, 1), LoopAction::Sleep { millis: 1 });
    assert_eq!(l.step(LoopEvent::Slept, true, 2), LoopAction::Exit);
}

#[test]
fn test_start_capture_loop_encode_error() {
    // An empty screenshot fails to encode; the loop reports it and goes on.
    let encoded = encode_image_to_frame(RawImage::from_rgba(0, 0, vec![]).unwrap());
    assert!(encoded.is_err());
    let mut l = CaptureLoop::new(0);
    l.step(LoopEvent::Start, false, 0);
    assert_eq!(l.step(LoopEvent::CaptureFailed, false, 0), LoopAction::Sleep { millis: 1 });
    assert_eq!(l.step(LoopEvent::Slept, false, 1), LoopAction::CaptureFrame);
}

#[test]
fn test_start_capture_loop_backpressure() {
    let mut l = CaptureLoop::new(0);
    l.step(LoopEvent::Start, false, 0);
    l.hold(sample_frame(0));
    l.step(LoopEvent::FrameReady, false, 0);
    assert_eq!(l.step(LoopEvent::ChannelFull, false, 0), LoopAction::Sleep { millis: 50 });
    assert_eq!(l.step(LoopEvent::Slept, false, 50), LoopAction::TrySend);
    assert_eq!(l.step(LoopEvent::ChannelFull, false, 50), LoopAction::Sleep { millis: 50 });
    assert_eq!(l.step(LoopEvent::Slept, false, 100), LoopAction::TrySend);
    l.take_frame();
    assert_eq!(l.step(LoopEvent::Sent, false, 100), LoopAction::Sleep { millis: 1 });
}

#[test]
fn test_start_capture_loop_shutdown_during_send() {
    let mut l = CaptureLoop::new(0);
    l.step(LoopEvent::Start, false, 0);
    l.hold(sample_frame(0));
    l.step(LoopEvent::FrameReady, false, 0);
    l.step(LoopEvent::ChannelFull, false, 0);
    assert_eq!(l.step(LoopEvent::Slept, true, 50), LoopAction::Exit);
    assert_eq!(l.phase, LoopPhase::Stopped);
}

#[test]
fn test_start_capture_loop_shutdown_during_sleep() {
    let mut l = CaptureLoop::new(1);
    l.step(LoopEvent::Start, false, 0);
    l.hold(sample_frame(0));
    l.step(LoopEvent::FrameReady, false, 0);
    l.take_frame();
    l.step(LoopEvent::Sent, false, 0);
    assert_eq!(l.step(LoopEvent::Slept, false, 1), LoopAction::Sleep { millis: 100 });
    assert_eq!(l.step(LoopEvent::Slept, true, 101), LoopAction::Exit);
    assert_eq!(l.phase, LoopPhase::Stopped);
}

#[test]
fn test_clock_readings_become_timestamps() {
    assert_eq!(timestamp_from_reading(Ok((1_698_400_800, 5))), Timestamp { secs: 1_698_400_800, nanos: 5 });
    // Before 1970: 1.5 s before the epoch is -2 s plus half a second.
    assert_eq!(timestamp_from_reading(Err((1, 500_000_000))), Timestamp { secs: -2, nanos: 500_000_000 });
    assert_eq!(timestamp_from_reading(Err((3, 0))), Timestamp { secs: -3, nanos: 0 });
    // Saturated at the ends of the range.
    assert_eq!(timestamp_from_reading(Ok((u64::MAX, 0))), Timestamp { secs: i64::MAX, nanos: 999_999_999 });
    assert_eq!(timestamp_from_reading(Err((u64::MAX, 1))), Timestamp { secs: i64::MIN, nanos: 0 });
    assert_eq!(timestamp_from_reading(Err((1u64 << 63, 0))), Timestamp { secs: i64::MIN, nanos: 0 });
}

#[test]
fn test_encoded_frame_is_stamped_now() {
    let before = chrono::Utc::now().timestamp();
    let frame = encode_image_to_frame(RawImage::from_rgba(1, 1, vec![1, 2, 3, 4]).unwrap()).unwrap();
    let after = chrono::Utc::now().timestamp();
    assert!(before <= frame.timestamp.secs && frame.timestamp.secs <= after);
    assert!(frame.timestamp.nanos < 1_000_000_000);
}

#[test]
fn test_capture_loop_keeps_the_waiting_frame() {
    let mut l = CaptureLoop::new(0);
    assert_eq!(l.step(LoopEvent::Start, false, 0), LoopAction::CaptureFrame);
    l.hold(sample_frame(41));
    assert_eq!(l.step(LoopEvent::FrameReady, false, 0), LoopAction::TrySend);
    // The channel is full twice; the same frame waits through both back-offs.
    assert_eq!(l.step(LoopEvent::ChannelFull, false, 0), LoopAction::Sleep { millis: 50 });
    assert_eq!(l.step(LoopEvent::Slept, false, 50), LoopAction::TrySend);
    assert_eq!(l.step(LoopEvent::ChannelFull, false, 50), LoopAction::Sleep { millis: 50 });
    assert_eq!(l.step(LoopEvent::Slept, false, 100), LoopAction::TrySend);
    assert_eq!(l.take_frame().id, 41);
    assert!(l.pending.is_none());
    assert_eq!(l.step(LoopEvent::Sent, false, 100), LoopAction::Sleep { millis: 1 });
    // The next capture carries the next frame.
    assert_eq!(l.step(LoopEvent::Slept, false, 101), LoopAction::CaptureFrame);
    l.hold(sample_frame(42));
    assert_eq!(l.step(LoopEvent::FrameReady, false, 101), LoopAction::TrySend);
    assert_eq!(l.take_frame().id, 42);
}

#[test]
fn test_capture_loop_drops_waiting_frame_on_shutdown() {
    let mut l = CaptureLoop::new(0);
    l.step(LoopEvent::Start, false, 0);
    l.hold(sample_frame(7));
    l.step(LoopEvent::FrameReady, false, 0);
    l.step(LoopEvent::ChannelFull, false, 0);
    assert_eq!(l.step(LoopEvent::Slept, true, 50), LoopAction::Exit);
    assert!(l.pending.is_none());
}

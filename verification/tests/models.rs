use chronos::capture::{encode_image_to_frame, RawImage};
use chronos::models::{CaptureConfig, Frame, Timestamp, VlmConfig};

#[test]
fn test_frame_instantiation() {
    let clock = chrono::Utc::now();
    let now = Timestamp { secs: clock.timestamp(), nanos: clock.timestamp_subsec_nanos() };
    let frame = Frame {
        id: ulid::Ulid::new().0,
        timestamp: now,
        image_data: vec![0xFF, 0x00, 0xFF],
        width: 1920,
        height: 1080,
    };

    assert_eq!(frame.width, 1920);
    assert_eq!(frame.height, 1080);
    assert_eq!(frame.image_data.len(), 3);
    assert_eq!(frame.timestamp, now);

    // Ulids are sortable and non-empty
    assert!(!ulid::Ulid(frame.id).to_string().is_empty());
}

#[test]
fn test_capture_config_defaults() {
    let config = CaptureConfig::default();
    assert_eq!(config.interval_seconds, 30);
    assert_eq!(config.ring_buffer_capacity, 64);
}

#[test]
fn test_vlm_config_defaults() {
    let config = VlmConfig::default();
    assert_eq!(config.ollama_host, "http://localhost:11434");
    assert_eq!(config.model_name, "moondream");
    assert_eq!(config.timeout_seconds, 60);
}

#[test]
fn test_unix_epoch_is_zero() {
    assert_eq!(Timestamp::unix_epoch(), Timestamp { secs: 0, nanos: 0 });
}

#[test]
fn test_encoded_frames_get_fresh_ids() {
    let a = encode_image_to_frame(RawImage::from_rgba(1, 1, vec![0, 0, 0, 255]).unwrap()).unwrap();
    let b = encode_image_to_frame(RawImage::from_rgba(1, 1, vec![0, 0, 0, 255]).unwrap()).unwrap();
    assert_ne!(a.id, b.id);
    assert_eq!(a.image_data, b.image_data);
}

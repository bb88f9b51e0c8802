use vstd::prelude::*;

verus! {

/// A moment in UTC, as whole seconds since the Unix epoch and the nanoseconds past that second.
#[derive(Debug, Clone, Copy, PartialEq, Eq, PartialOrd, Ord, Hash)]
pub struct Timestamp {
    /// Seconds since 1970-01-01T00:00:00Z (negative before it).
    pub secs: i64,
    /// Nanoseconds past `secs`.
    pub nanos: u32,
}

impl Timestamp {
    /// The Unix epoch, 1970-01-01T00:00:00Z.
    pub fn unix_epoch() -> (t: Timestamp)
        ensures
            t.secs == 0 && t.nanos == 0,
    {
        Timestamp { secs: 0, nanos: 0 }
    }
}

/// A single captured frame of the screen.
///
/// Frames live purely in RAM: the library offers no way to serialise them.
#[derive(Debug, Clone)]
pub struct Frame {
    /// Unique identifier of the capture event (the 128 bits of a ULID).
    pub id: u128,
    /// The moment the frame was captured.
    pub timestamp: Timestamp,
    /// Encoded image bytes.
    pub image_data: Vec<u8>,
    /// Screen width in pixels at capture time.
    pub width: u32,
    /// Screen height in pixels at capture time.
    pub height: u32,
}

/// Timing and memory limits of the screen capture.
#[derive(Debug, Clone, PartialEq, Eq)]
pub struct CaptureConfig {
    /// Seconds between consecutive screen captures.
    pub interval_seconds: u64,
    /// Maximum number of frames held in the RAM ring buffer.
    pub ring_buffer_capacity: usize,
}

impl Default for CaptureConfig {
    fn default() -> (c: Self)
        ensures
            c.interval_seconds == 30,
            c.ring_buffer_capacity == 64,
    {
        CaptureConfig { interval_seconds: 30, ring_buffer_capacity: 64 }
    }
}

/// Settings of the local vision-language model engine.
#[derive(Debug, Clone, PartialEq, Eq)]
pub struct VlmConfig {
    /// URL of the local Ollama API server.
    pub ollama_host: String,
    /// Name of the vision model to use.
    pub model_name: String,
    /// Longest wait for one inference before it fails.
    pub timeout_seconds: u64,
}

impl Default for VlmConfig {
    fn default() -> (c: Self)
        ensures
            c.ollama_host@ == "http://localhost:11434"@,
            c.model_name@ == "moondream"@,
            c.timeout_seconds == 60,
    {
        VlmConfig {
            ollama_host: String::from_str("http://localhost:11434"),
            model_name: String::from_str("moondream"),
            timeout_seconds: 60,
        }
    }
}

} // verus!

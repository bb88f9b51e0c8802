use std::io::Cursor;
use vstd::prelude::*;

use crate::error::{outcome, ChronosError, ErrorModel};
use crate::models::{Frame, Timestamp};

verus! {

/// The bytes of the PNG encoding that the `image` crate makes of an RGBA image of the
/// given size and pixels, or the text of its error when it refuses to encode it.
pub uninterp spec fn png_encoding(width: u32, height: u32, rgba: Seq<u8>) -> Result<Seq<u8>, Seq<char>>;

/// The eight-byte signature that opens every PNG file.
pub open spec fn png_signature() -> Seq<u8> {
    seq![137u8, 80u8, 78u8, 71u8, 13u8, 10u8, 26u8, 10u8]
}

/// An uncompressed RGBA image: four bytes per pixel, row by row.
#[derive(Debug)]
pub struct RawImage {
    width: u32,
    height: u32,
    rgba: Vec<u8>,
}

impl RawImage {
    #[verifier::type_invariant]
    spec fn well_formed(self) -> bool {
        self.rgba@.len() == self.width as int * self.height as int * 4
    }

    /// Width in pixels.
    pub closed spec fn spec_width(self) -> u32 {
        self.width
    }

    /// Height in pixels.
    pub closed spec fn spec_height(self) -> u32 {
        self.height
    }

    /// The pixel bytes.
    pub closed spec fn spec_rgba(self) -> Seq<u8> {
        self.rgba@
    }

    /// An image of the given size from its RGBA bytes, or `None` unless there are
    /// exactly four bytes per pixel.
    pub fn from_rgba(width: u32, height: u32, rgba: Vec<u8>) -> (r: Option<Self>)
        ensures
            (rgba@.len() == width as int * height as int * 4) <==> r is Some,
            r matches Some(img) ==> img.spec_width() == width && img.spec_height() == height
                && img.spec_rgba() == rgba@,
    {
        proof {
            assert((width as int) * (height as int) <= 0xFFFF_FFFF_FFFF_FFFF) by (nonlinear_arith)
                requires
                    width <= 0xFFFF_FFFF,
                    height <= 0xFFFF_FFFF,
            ;
        }
        let expected: u128 = (width as u128) * (height as u128) * 4;
        if rgba.len() as u128 == expected {
            Some(RawImage { width, height, rgba })
        } else {
            None
        }
    }

    /// Width in pixels.
    pub fn width(&self) -> (w: u32)
        ensures
            w == self.spec_width(),
    {
        self.width
    }

    /// Height in pixels.
    pub fn height(&self) -> (h: u32)
        ensures
            h == self.spec_height(),
    {
        self.height
    }
}

/// Encodes an RGBA image as PNG, in memory, with `image::RgbaImage::write_to`.
///
/// Claims that the outcome, the encoder's error message included, is a function of
/// the image (named `png_encoding`), and that an encoding starts with the PNG signature.
#[verifier::external_body]
fn encode_png(width: u32, height: u32, rgba: &Vec<u8>) -> (r: Result<Vec<u8>, String>)
    requires
        rgba@.len() == width as int * height as int * 4,
    ensures
        encoding_view(r) == png_encoding(width, height, rgba@),
        r matches Ok(b) ==> b@.len() >= 8 && b@.take(8) == png_signature(),
{
    let image = image::RgbaImage::from_raw(width, height, rgba.clone()).expect(
        "four bytes per pixel",
    );
    let mut buffer: Vec<u8> = Vec::new();
    match image.write_to(&mut Cursor::new(&mut buffer), image::ImageFormat::Png) {
        Ok(()) => Ok(buffer),
        Err(e) => Err(e.to_string()),
    }
}

/// A fresh ULID from `ulid::Ulid::new`, as its 128 bits.
///
/// Nothing is claimed of it: it is made from the clock and random bits.
#[verifier::external_body]
pub(crate) fn fresh_id() -> (id: u128) {
    ulid::Ulid::new().0
}

/// Declares `std::time::SystemTime` to Verus as an opaque type: a reading of the
/// system clock, only measured against the Unix epoch.
#[verifier::external_type_specification]
#[verifier::external_body]
pub struct ExSystemTime(std::time::SystemTime);

/// Reads the system clock with `std::time::SystemTime::now`.
///
/// Nothing is claimed of the reading: it comes from the clock.
#[verifier::external_body]
fn read_system_clock() -> (t: std::time::SystemTime) {
    std::time::SystemTime::now()
}

/// Measures a clock reading from the Unix epoch with `SystemTime::duration_since`:
/// `Ok` with the whole seconds and nanoseconds after the epoch, `Err` with those
/// before it (a clock set before 1970).
///
/// Claims that the nanoseconds are below one billion, as `Duration::subsec_nanos`
/// documents.
#[verifier::external_body]
fn offset_from_epoch(t: &std::time::SystemTime) -> (r: Result<(u64, u32), (u64, u32)>)
    ensures
        match r {
            Ok((_, n)) => n < 1_000_000_000,
            Err((_, n)) => n < 1_000_000_000,
        },
{
    match t.duration_since(std::time::UNIX_EPOCH) {
        Ok(d) => Ok((d.as_secs(), d.subsec_nanos())),
        Err(e) => Err((e.duration().as_secs(), e.duration().subsec_nanos())),
    }
}

/// The timestamp of a clock reading measured from the Unix epoch (`Ok` after it,
/// `Err` before it, as whole seconds and nanoseconds), saturated at the ends of the
/// range of `Timestamp`.
pub open spec fn reading_timestamp(reading: Result<(u64, u32), (u64, u32)>) -> Timestamp {
    match reading {
        Ok((s, n)) => if s <= i64::MAX {
            Timestamp { secs: s as i64, nanos: n }
        } else {
            Timestamp { secs: i64::MAX, nanos: 999_999_999 }
        },
        Err((s, n)) => if n == 0 {
            if s <= 0x8000_0000_0000_0000 {
                Timestamp { secs: (0 - s) as i64, nanos: 0 }
            } else {
                Timestamp { secs: i64::MIN, nanos: 0 }
            }
        } else if s < 0x8000_0000_0000_0000 {
            Timestamp { secs: (0 - s - 1) as i64, nanos: (1_000_000_000 - n) as u32 }
        } else {
            Timestamp { secs: i64::MIN, nanos: 0 }
        },
    }
}

/// Converts a clock reading measured from the Unix epoch into a timestamp: a reading
/// before 1970 gives a negative number of seconds, with the nanoseconds counted
/// forward from them.
pub fn timestamp_from_reading(reading: Result<(u64, u32), (u64, u32)>) -> (t: Timestamp)
    requires
        match reading {
            Ok((_, n)) => n < 1_000_000_000,
            Err((_, n)) => n < 1_000_000_000,
        },
    ensures
        t == reading_timestamp(reading),
        t.nanos < 1_000_000_000,
{
    match reading {
        Ok((s, n)) => {
            if s <= 0x7FFF_FFFF_FFFF_FFFF {
                Timestamp { secs: s as i64, nanos: n }
            } else {
                Timestamp { secs: i64::MAX, nanos: 999_999_999 }
            }
        },
        Err((s, n)) => {
            if n == 0 {
                if s < 0x8000_0000_0000_0000 {
                    Timestamp { secs: 0 - (s as i64), nanos: 0 }
                } else {
                    Timestamp { secs: i64::MIN, nanos: 0 }
                }
            } else if s < 0x8000_0000_0000_0000 {
                Timestamp { secs: 0 - (s as i64) - 1, nanos: 1_000_000_000 - n }
            } else {
                Timestamp { secs: i64::MIN, nanos: 0 }
            }
        },
    }
}

/// The current time, from the system clock; a clock set before 1970 gives a
/// negative timestamp instead of a failure.
pub(crate) fn now_utc() -> (t: Timestamp)
    ensures
        t.nanos < 1_000_000_000,
{
    let clock = read_system_clock();
    let reading = offset_from_epoch(&clock);
    timestamp_from_reading(reading)
}

/// The frame made from an encoding attempt of a `width` x `height` image, stamped
/// with `id` and `timestamp`.
pub open spec fn framed(
    width: u32,
    height: u32,
    encoded: Result<Seq<u8>, Seq<char>>,
    id: u128,
    timestamp: Timestamp,
) -> Result<(u128, Timestamp, Seq<u8>, u32, u32), ErrorModel> {
    match encoded {
        Ok(bytes) => Ok((id, timestamp, bytes, width, height)),
        Err(m) => Err(ErrorModel::Capture("Failed to encode PNG: "@ + m)),
    }
}

/// The content of a frame.
pub open spec fn frame_content(f: Frame) -> (u128, Timestamp, Seq<u8>, u32, u32) {
    (f.id, f.timestamp, f.image_data@, f.width, f.height)
}

/// The content of a frame result.
pub open spec fn frame_outcome(r: Result<Frame, ChronosError>) -> Result<
    (u128, Timestamp, Seq<u8>, u32, u32),
    ErrorModel,
> {
    match r {
        Ok(f) => Ok(frame_content(f)),
        Err(e) => Err(e@),
    }
}

/// The view of an encoding attempt.
pub open spec fn encoding_view(r: Result<Vec<u8>, String>) -> Result<Seq<u8>, Seq<char>> {
    match r {
        Ok(b) => Ok(b@),
        Err(m) => Err(m@),
    }
}

/// Makes the frame of an encoded image, or the capture error of a failed encoding.
pub fn frame_from_encoding(
    width: u32,
    height: u32,
    encoded: Result<Vec<u8>, String>,
    id: u128,
    timestamp: Timestamp,
) -> (r: Result<Frame, ChronosError>)
    ensures
        frame_outcome(r) == framed(width, height, encoding_view(encoded), id, timestamp),
{
    match encoded {
        Ok(bytes) => Ok(Frame { id, timestamp, image_data: bytes, width, height }),
        Err(m) => Err(
            ChronosError::Capture(String::from_str("Failed to encode PNG: ").concat(m.as_str())),
        ),
    }
}

/// Encodes a captured image as a PNG frame, in RAM only, with a fresh id and the
/// current time. An image without pixels is refused.
pub fn encode_image_to_frame(image: RawImage) -> (r: Result<Frame, ChronosError>)
    ensures
        image.spec_width() == 0 || image.spec_height() == 0 ==> outcome(r) == Err::<
            Frame,
            ErrorModel,
        >(ErrorModel::Capture("Cannot encode empty image"@)),
        image.spec_width() > 0 && image.spec_height() > 0 ==> match png_encoding(
            image.spec_width(),
            image.spec_height(),
            image.spec_rgba(),
        ) {
            Ok(bytes) => r matches Ok(f) && f.width == image.spec_width() && f.height
                == image.spec_height() && f.image_data@ == bytes,
            Err(m) => outcome(r) == Err::<Frame, ErrorModel>(
                ErrorModel::Capture("Failed to encode PNG: "@ + m),
            ),
        },
        r matches Ok(f) ==> f.image_data@.len() >= 8 && f.image_data@.take(8) == png_signature(),
{
    proof {
        use_type_invariant(&image);
    }
    let width = image.width;
    let height = image.height;
    if width == 0 || height == 0 {
        return Err(ChronosError::Capture(String::from_str("Cannot encode empty image")));
    }
    let encoded = encode_png(width, height, &image.rgba);
    match encoded {
        Ok(_) => {
            let id = fresh_id();
            let timestamp = now_utc();
            frame_from_encoding(width, height, encoded, id, timestamp)
        },
        Err(_) => frame_from_encoding(width, height, encoded, 0, Timestamp::unix_epoch()),
    }
}

/// The result of looking for the primary monitor, given for each monitor in order
/// whether it is the primary one (or why that could not be told): the first primary
/// monitor, unless telling failed for a monitor before it; no monitor at all is an error.
pub open spec fn primary_choice(flags: Seq<Result<bool, Seq<char>>>) -> Result<nat, ErrorModel>
    decreases flags.len(),
{
    if flags.len() == 0 {
        Err(ErrorModel::Capture("No primary monitor detected"@))
    } else {
        match flags[0] {
            Err(m) => Err(ErrorModel::Capture("Failed to check if monitor is primary: "@ + m)),
            Ok(true) => Ok(0),
            Ok(false) => match primary_choice(flags.drop_first()) {
                Ok(i) => Ok(i + 1),
                Err(e) => Err(e),
            },
        }
    }
}

/// The view of the primary-monitor answers.
pub open spec fn flags_view(flags: Seq<Result<bool, String>>) -> Seq<Result<bool, Seq<char>>> {
    flags.map_values(
        |f: Result<bool, String>|
            match f {
                Ok(b) => Ok(b),
                Err(m) => Err(m@),
            },
    )
}

/// Picks the primary monitor from the answers, in monitor order, to "is this the
/// primary monitor?".
pub fn select_primary_monitor(flags: &Vec<Result<bool, String>>) -> (r: Result<usize, ChronosError>)
    ensures
        match (r, primary_choice(flags_view(flags@))) {
            (Ok(i), Ok(j)) => i == j,
            (Err(e), Err(m)) => e@ == m,
            _ => false,
        },
{
    let n = flags.len();
    let mut i: usize = 0;
    proof {
        assert(flags_view(flags@).skip(0) =~= flags_view(flags@));
    }
    while i < n
        invariant
            n == flags@.len(),
            i <= n,
            forall|j: int| 0 <= j < i ==> flags@[j] == Ok::<bool, String>(false),
            primary_choice(flags_view(flags@)) == match primary_choice(
                flags_view(flags@).skip(i as int),
            ) {
                Ok(k) => Ok((k + i) as nat),
                Err(e) => Err(e),
            },
        decreases n - i,
    {
        proof {
            let rest = flags_view(flags@).skip(i as int);
            assert(rest[0] == flags_view(flags@)[i as int]);
        }
        match &flags[i] {
            Ok(true) => {
                return Ok(i);
            },
            Ok(false) => {},
            Err(m) => {
                return Err(
                    ChronosError::Capture(
                        String::from_str("Failed to check if monitor is primary: ").concat(
                            m.as_str(),
                        ),
                    ),
                );
            },
        }
        assert(flags_view(flags@).skip(i as int).drop_first() =~= flags_view(flags@).skip(
            i + 1,
        ));
        i = i + 1;
    }
    Err(ChronosError::Capture(String::from_str("No primary monitor detected")))
}

} // verus!

//! Decoding one raw message payload into a frame record.
//!
//! A payload starts with a four-byte encapsulation header whose first two
//! bytes name the representation: plain CDR, big-endian or little-endian. The
//! body that follows holds the fields of one image message in that byte
//! order. The header is read here; the body is handed to the CDR decoder.

use vstd::prelude::*;
use vstd::slice::slice_subrange;

verus! {

/// Length of the encapsulation header that precedes the body.
pub const ENCAPSULATION_LEN: usize = 4;

/// Nanoseconds in one second.
pub const NANOS_PER_SEC: i64 = 1_000_000_000;

/// One decoded image message.
#[derive(Debug)]
pub struct ImageFrame {
    /// Whole seconds of the sensor timestamp.
    pub stamp_sec: i32,
    /// Nanoseconds of the sensor timestamp, added to the seconds.
    pub stamp_nanosec: u32,
    /// Number of rows.
    pub height: u32,
    /// Number of columns.
    pub width: u32,
    /// Name of the pixel encoding.
    pub encoding: String,
    /// Zero when the pixel data is little-endian, nonzero when big-endian.
    pub is_bigendian: u8,
    /// Length of one row in bytes.
    pub step: u32,
    /// The pixel data.
    pub data: Vec<u8>,
}

/// A frame record as a mathematical value.
pub struct ImageFrameView {
    pub stamp_sec: i32,
    pub stamp_nanosec: u32,
    pub height: u32,
    pub width: u32,
    pub encoding: Seq<char>,
    pub is_bigendian: u8,
    pub step: u32,
    pub data: Seq<u8>,
}

impl View for ImageFrame {
    type V = ImageFrameView;

    open spec fn view(&self) -> ImageFrameView {
        ImageFrameView {
            stamp_sec: self.stamp_sec,
            stamp_nanosec: self.stamp_nanosec,
            height: self.height,
            width: self.width,
            encoding: self.encoding@,
            is_bigendian: self.is_bigendian,
            step: self.step,
            data: self.data@,
        }
    }
}

/// Nanoseconds since the epoch of a timestamp given as whole seconds and a
/// nanosecond part.
pub open spec fn nanos_since_epoch(sec: i32, nanosec: u32) -> int {
    sec * NANOS_PER_SEC + nanosec
}

impl ImageFrameView {
    /// The sensor timestamp in nanoseconds since the epoch.
    pub open spec fn timestamp_nanos(self) -> int {
        nanos_since_epoch(self.stamp_sec, self.stamp_nanosec)
    }

    /// Whether the pixel data is big-endian.
    pub open spec fn big_endian(self) -> bool {
        self.is_bigendian != 0
    }
}

/// A timestamp in nanoseconds fits in 64 bits, with room to spare.
pub proof fn lemma_nanos_fit(sec: i32, nanosec: u32)
    ensures
        i64::MIN < nanos_since_epoch(sec, nanosec) <= i64::MAX,
{
}

/// `cdr_encoding::Error`: why the CDR decoder gave up, opaque here.
#[verifier::external_type_specification]
#[verifier::external_body]
pub struct ExCdrError(cdr_encoding::Error);

/// Why a payload did not decode.
#[derive(Debug)]
pub enum DecodeError {
    /// The payload is shorter than the encapsulation header.
    TooShort { len: usize },
    /// The header names a representation other than plain CDR.
    UnknownRepresentation { identifier: [u8; 2] },
    /// The body is truncated or does not follow the message's field layout.
    Malformed { cause: cdr_encoding::Error },
}

/// The three ways in which decoding fails.
#[derive(Clone, Copy, Debug, PartialEq, Eq, Structural)]
pub enum DecodeFault {
    /// The payload is shorter than the encapsulation header.
    TooShort,
    /// The header names a representation other than plain CDR.
    UnknownRepresentation,
    /// The body is truncated or does not follow the message's field layout.
    Malformed,
}

impl DecodeError {
    /// Which of the three failures this is.
    pub open spec fn spec_fault(&self) -> DecodeFault {
        match self {
            DecodeError::TooShort { .. } => DecodeFault::TooShort,
            DecodeError::UnknownRepresentation { .. } => DecodeFault::UnknownRepresentation,
            DecodeError::Malformed { .. } => DecodeFault::Malformed,
        }
    }

    /// Which of the three failures this is.
    pub fn fault(&self) -> (r: DecodeFault)
        ensures
            r == self.spec_fault(),
    {
        match self {
            DecodeError::TooShort { .. } => DecodeFault::TooShort,
            DecodeError::UnknownRepresentation { .. } => DecodeFault::UnknownRepresentation,
            DecodeError::Malformed { .. } => DecodeFault::Malformed,
        }
    }
}

/// What the CDR decoder makes of `body` as one image message, read in
/// big-endian byte order if `big_endian` and in little-endian otherwise:
/// the frame, or nothing where the body does not decode.
pub uninterp spec fn cdr_image(body: Seq<u8>, big_endian: bool) -> Option<ImageFrameView>;

/// Decodes a little-endian body with `cdr_encoding::from_bytes`, as a
/// `re_mcap_ros2::sensor_msgs::Image`, and moves its fields into a frame
/// record. The outcome is a function of the bytes alone; the contract names
/// it and says no more.
#[verifier::external_body]
fn cdr_image_le(body: &[u8]) -> (r: Result<ImageFrame, cdr_encoding::Error>)
    ensures
        match r {
            Ok(frame) => cdr_image(body@, false) == Some(frame@),
            Err(_) => cdr_image(body@, false) is None,
        },
{
    match cdr_encoding::from_bytes::<re_mcap_ros2::sensor_msgs::Image<'_>, byteorder::LittleEndian>(body) {
        Ok((m, _)) => Ok(ImageFrame {
            stamp_sec: m.header.stamp.sec,
            stamp_nanosec: m.header.stamp.nanosec,
            height: m.height,
            width: m.width,
            encoding: m.encoding,
            is_bigendian: m.is_bigendian,
            step: m.step,
            data: m.data.into_owned(),
        }),
        Err(e) => Err(e),
    }
}

/// Decodes a big-endian body with `cdr_encoding::from_bytes`, as a
/// `re_mcap_ros2::sensor_msgs::Image`, and moves its fields into a frame
/// record. The outcome is a function of the bytes alone; the contract names
/// it and says no more.
#[verifier::external_body]
fn cdr_image_be(body: &[u8]) -> (r: Result<ImageFrame, cdr_encoding::Error>)
    ensures
        match r {
            Ok(frame) => cdr_image(body@, true) == Some(frame@),
            Err(_) => cdr_image(body@, true) is None,
        },
{
    match cdr_encoding::from_bytes::<re_mcap_ros2::sensor_msgs::Image<'_>, byteorder::BigEndian>(body) {
        Ok((m, _)) => Ok(ImageFrame {
            stamp_sec: m.header.stamp.sec,
            stamp_nanosec: m.header.stamp.nanosec,
            height: m.height,
            width: m.width,
            encoding: m.encoding,
            is_bigendian: m.is_bigendian,
            step: m.step,
            data: m.data.into_owned(),
        }),
        Err(e) => Err(e),
    }
}

/// Calls `re_mcap_ros2::builtin_interfaces::Time::as_nanos`, which widens
/// both parts to 64 bits, multiplies the seconds by a thousand million and
/// adds the nanoseconds.
#[verifier::external_body]
fn stamp_as_nanos(sec: i32, nanosec: u32) -> (r: i64)
    ensures
        r == nanos_since_epoch(sec, nanosec),
{
    re_mcap_ros2::builtin_interfaces::Time { sec, nanosec }.as_nanos()
}

impl ImageFrame {
    /// The sensor timestamp in nanoseconds since the epoch.
    pub fn timestamp_nanos(&self) -> (r: i64)
        ensures
            r == self@.timestamp_nanos(),
    {
        stamp_as_nanos(self.stamp_sec, self.stamp_nanosec)
    }

    /// Whether the pixel data is big-endian.
    pub fn big_endian(&self) -> (r: bool)
        ensures
            r == self@.big_endian(),
    {
        self.is_bigendian != 0
    }
}

/// The byte order that an encapsulation header announces: `Ok(true)` for
/// big-endian, `Ok(false)` for little-endian.
pub open spec fn announced_byte_order(payload: Seq<u8>) -> Result<bool, DecodeFault> {
    if payload.len() < ENCAPSULATION_LEN {
        Err(DecodeFault::TooShort)
    } else if payload[0] == 0 && payload[1] == 0 {
        Ok(true)
    } else if payload[0] == 0 && payload[1] == 1 {
        Ok(false)
    } else {
        Err(DecodeFault::UnknownRepresentation)
    }
}

/// What decoding a whole payload gives: the frame that the CDR decoder reads
/// from the body in the announced byte order, or the failure.
pub open spec fn decoded_frame(payload: Seq<u8>) -> Result<ImageFrameView, DecodeFault> {
    match announced_byte_order(payload) {
        Err(fault) => Err(fault),
        Ok(big_endian) => match cdr_image(
            payload.subrange(ENCAPSULATION_LEN as int, payload.len() as int),
            big_endian,
        ) {
            Some(frame) => Ok(frame),
            None => Err(DecodeFault::Malformed),
        },
    }
}

/// Reads the encapsulation header of a payload.
pub fn read_byte_order(payload: &[u8]) -> (r: Result<bool, DecodeError>)
    ensures
        match announced_byte_order(payload@) {
            Ok(big_endian) => r == Ok::<bool, DecodeError>(big_endian),
            Err(fault) => r is Err && r->Err_0.spec_fault() == fault,
        },
        r matches Err(DecodeError::TooShort { len }) ==> len == payload@.len(),
        r matches Err(DecodeError::UnknownRepresentation { identifier }) ==> identifier[0]
            == payload@[0] && identifier[1] == payload@[1],
{
    if payload.len() < ENCAPSULATION_LEN {
        return Err(DecodeError::TooShort { len: payload.len() });
    }
    let first: u8 = payload[0];
    let second: u8 = payload[1];
    if first == 0 && second == 0 {
        Ok(true)
    } else if first == 0 && second == 1 {
        Ok(false)
    } else {
        Err(DecodeError::UnknownRepresentation { identifier: [first, second] })
    }
}

/// Turns what the CDR decoder returned into the decoder's own result.
pub fn frame_from_body(body: Result<ImageFrame, cdr_encoding::Error>) -> (r: Result<
    ImageFrame,
    DecodeError,
>)
    ensures
        match body {
            Ok(frame) => r == Ok::<ImageFrame, DecodeError>(frame),
            Err(cause) => r matches Err(DecodeError::Malformed { cause: c }) && c == cause,
        },
{
    match body {
        Ok(frame) => Ok(frame),
        Err(cause) => Err(DecodeError::Malformed { cause }),
    }
}

/// Decodes one raw message payload into a frame record.
pub fn decode_frame(payload: &[u8]) -> (r: Result<ImageFrame, DecodeError>)
    ensures
        match decoded_frame(payload@) {
            Ok(frame) => r is Ok && r->Ok_0@ == frame,
            Err(fault) => r is Err && r->Err_0.spec_fault() == fault,
        },
{
    let big_endian = match read_byte_order(payload) {
        Ok(big_endian) => big_endian,
        Err(e) => {
            return Err(e);
        },
    };
    let body = slice_subrange(payload, ENCAPSULATION_LEN, payload.len());
    if big_endian {
        frame_from_body(cdr_image_be(body))
    } else {
        frame_from_body(cdr_image_le(body))
    }
}

} // verus!

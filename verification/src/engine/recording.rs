//! Screencast recording: the capture settings, the cap on a recording's
//! length, how frames are decoded and named, and which frame previews a
//! clip.

use vstd::prelude::*;
use crate::cdp::protocol::page::StartScreencastParams;
use crate::codec::{base64_decode, base64_standard_decode};
use crate::paths::{join, join_path, PathStyle};
use crate::text::{decimal, u64_decimal};

verus! {

/// The longest a recording runs, whatever the caller asks for.
pub const MAX_RECORDING_DURATION_MS: u64 = 30000;

/// The JPEG quality used when none is asked for.
pub const DEFAULT_QUALITY: u8 = 60;

/// Frames are captured at most this wide ...
pub const CAPTURE_MAX_WIDTH: i64 = 480;

/// ... and this high: a preview clip does not need full resolution.
pub const CAPTURE_MAX_HEIGHT: i64 = 360;

/// Only every third repainted frame is streamed.
pub const CAPTURE_EVERY_NTH_FRAME: i64 = 3;

/// How a recording is made.
pub struct RecordingOptions {
    /// Capped to `MAX_RECORDING_DURATION_MS` whatever is asked for.
    pub max_duration_ms: u64,
    /// JPEG quality, 0-100.
    pub quality: u8,
}

impl Default for RecordingOptions {
    fn default() -> (r: Self)
        ensures
            r.max_duration_ms == MAX_RECORDING_DURATION_MS,
            r.quality == DEFAULT_QUALITY,
    {
        RecordingOptions { max_duration_ms: MAX_RECORDING_DURATION_MS, quality: DEFAULT_QUALITY }
    }
}

/// How long a recording may run: what was asked for, at most
/// `MAX_RECORDING_DURATION_MS`.
pub fn capped_duration_ms(options: &RecordingOptions) -> (r: u64)
    ensures
        r == if options.max_duration_ms <= MAX_RECORDING_DURATION_MS { options.max_duration_ms } else { MAX_RECORDING_DURATION_MS },
{
    if options.max_duration_ms <= MAX_RECORDING_DURATION_MS {
        options.max_duration_ms
    } else {
        MAX_RECORDING_DURATION_MS
    }
}

/// The screencast request: JPEG at the options' quality, capped in size,
/// every third frame.
pub fn screencast_params(options: &RecordingOptions) -> (r: StartScreencastParams)
    ensures
        r.format matches Some(f) && f@ == "jpeg"@,
        r.quality == Some(options.quality as i64),
        r.max_width == Some(CAPTURE_MAX_WIDTH),
        r.max_height == Some(CAPTURE_MAX_HEIGHT),
        r.every_nth_frame == Some(CAPTURE_EVERY_NTH_FRAME),
{
    StartScreencastParams {
        format: Some("jpeg".to_owned()),
        quality: Some(options.quality as i64),
        max_width: Some(CAPTURE_MAX_WIDTH),
        max_height: Some(CAPTURE_MAX_HEIGHT),
        every_nth_frame: Some(CAPTURE_EVERY_NTH_FRAME),
    }
}

/// The JPEG bytes of a streamed frame, or `None` (the frame is skipped)
/// when its data is not valid base64.
pub fn frame_jpeg(data: &str) -> (r: Option<Vec<u8>>)
    ensures
        match r {
            Some(v) => base64_standard_decode(data@) == Ok::<Seq<u8>, Seq<char>>(v@),
            None => base64_standard_decode(data@) is Err,
        },
{
    match base64_decode(data) {
        Ok(v) => Some(v),
        Err(_) => None,
    }
}

/// `digits` left-padded with zeros to at least four characters.
pub open spec fn pad4(digits: Seq<char>) -> Seq<char> {
    if digits.len() >= 4 {
        digits
    } else {
        Seq::new((4 - digits.len()) as nat, |i: int| '0') + digits
    }
}

/// The file name of the frame at `index` (0-based): `frame_0001.jpg` for
/// the first.
pub fn frame_file_name(index: usize) -> (r: String)
    requires
        index < usize::MAX,
    ensures
        r@ == "frame_"@ + pad4(decimal((index + 1) as nat)) + ".jpg"@,
{
    let n = u64_decimal((index + 1) as u64);
    let mut r = "frame_".to_owned();
    let len = n.as_str().unicode_len();
    let mut pad: usize = 0;
    let ghost start = r@;
    while pad + len < 4
        invariant
            len == n@.len(),
            r@ == start + Seq::new(pad as nat, |i: int| '0'),
            pad + len <= 4 || pad == 0,
        decreases 4 - pad - len,
    {
        r.append("0");
        proof {
            reveal_strlit("0");
        }
        assert(r@ =~= start + Seq::new((pad + 1) as nat, |i: int| '0'));
        pad += 1;
    }
    r.append(n.as_str());
    r.append(".jpg");
    proof {
        if n@.len() < 4 {
            assert(pad == 4 - n@.len());
        } else {
            assert(pad == 0);
            assert(Seq::new(0nat, |i: int| '0') =~= Seq::<char>::empty());
        }
        assert(r@ =~= "frame_"@ + pad4(decimal((index + 1) as nat)) + ".jpg"@);
    }
    r
}

/// The frame that previews a clip of `frame_count` frames: the middle one.
pub fn preview_index(frame_count: usize) -> (r: usize)
    requires
        frame_count > 0,
    ensures
        r == frame_count / 2,
        r < frame_count,
{
    frame_count / 2
}

/// Where a recording's frames, their index and the clip are written: the
/// directory named `id` under the recordings directory `base`.
pub fn recording_dir(base: &str, id: &str, style: &PathStyle) -> (r: String)
    ensures
        r@ == join(base@, id@, *style),
{
    join_path(base, id, style)
}

} // verus!

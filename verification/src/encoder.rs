//! The encoder wrapper: configuration validation, the fallback cascade,
//! keyframe detection by parsing emitted bytes, the frame-size history
//! with its quality self-regulation, and the oversize-frame drop policy.
//!
//! The native codec call itself happens outside the library; its outcome
//! is handed in as a value and every decision around it is made here.

use vstd::prelude::*;

use crate::seqtools::{lemma_seq_sum_u32_bound, lemma_seq_sum_u32_push, seq_sum_u32};
use crate::video::{
    CodecFormat, EncodedVideoFrame, VideoFrame, VideoFrameUnion, VpxEncoderConfig,
    VpxVideoCodecId,
};
use std::collections::VecDeque;

verus! {

/// Largest width or height the encoder accepts.
pub const MAX_ENCODER_DIMENSION: usize = 4096;

/// Frames larger than this are oversize at 1080p and above; the bound is
/// halved below 1080p.
pub const MAX_FRAME_SIZE_1080P: usize = 1200000;

/// The frame size the quality regulation aims at, for 1080p.
pub const TARGET_FRAME_SIZE_1080P: u32 = 200000;

/// Milliseconds between quality self-adjustments.
pub const QUALITY_ADJUST_INTERVAL_MS: i64 = 5000;

/// Number of recent frame sizes the tracker keeps.
pub const FRAME_SIZE_HISTORY_LEN: usize = 20;

/// Lowest bitrate ratio the encoder accepts, in milli-units.
pub const ENC_RATIO_MIN_MILLI: u32 = 100;

/// Highest bitrate ratio the encoder accepts, in milli-units.
pub const ENC_RATIO_MAX_MILLI: u32 = 4000;

/// Default bitrate ratio, in milli-units.
pub const ENC_RATIO_DEFAULT_MILLI: u32 = 1000;

/// Balanced bitrate ratio, in milli-units.
pub const ENC_RATIO_BALANCED_MILLI: u32 = 670;

// ---------------------------------------------------------------------------
// Keyframe detection
// ---------------------------------------------------------------------------
/// Whether a VP8 or VP9 frame is a keyframe: the encoder's flag, or a
/// clear low bit in the first byte of a frame of at least three bytes.
pub open spec fn spec_vpx_frame_is_key(f: EncodedVideoFrame) -> bool {
    f.key || (f.data@.len() >= 3 && f.data@[0] & 0x01 == 0)
}

/// Whether a four-byte NAL start code sits at offset `i`.
pub open spec fn spec_nal_start_at(d: Seq<u8>, i: int) -> bool {
    d[i] == 0 && d[i + 1] == 0 && d[i + 2] == 0 && d[i + 3] == 1
}

/// Whether an H.264 frame is a keyframe: the encoder's flag, or an IDR
/// NAL unit (type 5) after a start code.
pub open spec fn spec_h264_frame_is_key(f: EncodedVideoFrame) -> bool {
    f.key || exists|i: int|
        0 <= i && i + 4 < f.data@.len() && spec_nal_start_at(f.data@, i) && f.data@[i + 4] & 0x1f
            == 5
}

/// Whether an H.265 frame is a keyframe: the encoder's flag, or an IRAP
/// NAL unit (types 16 to 23) after a start code.
pub open spec fn spec_h265_frame_is_key(f: EncodedVideoFrame) -> bool {
    f.key || exists|i: int|
        0 <= i && i + 4 < f.data@.len() && spec_nal_start_at(f.data@, i) && 16 <= (f.data@[i + 4]
            >> 1) & 0x3f <= 23
}

/// Whether any frame in the container is a keyframe, judged per codec by
/// parsing the emitted bytes; AV1 trusts the encoder flag alone.
pub open spec fn spec_is_keyframe(vf: VideoFrame) -> bool {
    match vf.frames_union {
        Some(VideoFrameUnion::Vp8s(fs)) => exists|k: int|
            0 <= k < fs.frames@.len() && spec_vpx_frame_is_key(#[trigger] fs.frames@[k]),
        Some(VideoFrameUnion::Vp9s(fs)) => exists|k: int|
            0 <= k < fs.frames@.len() && spec_vpx_frame_is_key(#[trigger] fs.frames@[k]),
        Some(VideoFrameUnion::H264s(fs)) => exists|k: int|
            0 <= k < fs.frames@.len() && spec_h264_frame_is_key(#[trigger] fs.frames@[k]),
        Some(VideoFrameUnion::H265s(fs)) => exists|k: int|
            0 <= k < fs.frames@.len() && spec_h265_frame_is_key(#[trigger] fs.frames@[k]),
        Some(VideoFrameUnion::Av1s(fs)) => exists|k: int|
            0 <= k < fs.frames@.len() && (#[trigger] fs.frames@[k]).key,
        None => false,
    }
}

/// Whether a VP8 or VP9 frame is a keyframe.
fn vpx_frame_is_key(f: &EncodedVideoFrame) -> (r: bool)
    ensures
        r == spec_vpx_frame_is_key(*f),
{
    if f.key {
        return true;
    }
    if f.data.len() >= 3 {
        (f.data[0] & 0x01) == 0
    } else {
        false
    }
}

/// Whether an H.264 frame is a keyframe, by scanning for an IDR NAL
/// unit behind any start code.
#[verifier::loop_isolation(false)]
fn h264_frame_is_key(f: &EncodedVideoFrame) -> (r: bool)
    ensures
        r == spec_h264_frame_is_key(*f),
{
    if f.key {
        return true;
    }
    let n = f.data.len();
    if n < 5 {
        return false;
    }
    let mut i: usize = 0;
    while i < n - 4
        invariant
            forall|j: int|
                0 <= j < i ==> !(spec_nal_start_at(f.data@, j) && f.data@[j + 4] & 0x1f == 5),
        decreases n - i,
    {
        if f.data[i] == 0 && f.data[i + 1] == 0 && f.data[i + 2] == 0 && f.data[i + 3] == 1 {
            if (f.data[i + 4] & 0x1f) == 5 {
                proof {
                    assert(spec_nal_start_at(f.data@, i as int) && f.data@[i + 4] & 0x1f == 5);
                }
                return true;
            }
        }
        i = i + 1;
    }
    false
}

/// Whether an H.265 frame is a keyframe.
#[verifier::loop_isolation(false)]
fn h265_frame_is_key(f: &EncodedVideoFrame) -> (r: bool)
    ensures
        r == spec_h265_frame_is_key(*f),
{
    if f.key {
        return true;
    }
    let n = f.data.len();
    if n < 5 {
        return false;
    }
    let mut i: usize = 0;
    while i < n - 4
        invariant
            forall|j: int|
                0 <= j < i ==> !(spec_nal_start_at(f.data@, j) && 16 <= (f.data@[j + 4] >> 1)
                    & 0x3f <= 23),
        decreases n - i,
    {
        if f.data[i] == 0 && f.data[i + 1] == 0 && f.data[i + 2] == 0 && f.data[i + 3] == 1 {
            let nal_type = (f.data[i + 4] >> 1) & 0x3f;
            if nal_type >= 16 && nal_type <= 23 {
                proof {
                    assert(spec_nal_start_at(f.data@, i as int) && 16 <= (f.data@[i + 4] >> 1)
                        & 0x3f <= 23);
                }
                return true;
            }
        }
        i = i + 1;
    }
    false
}

/// Whether any frame in the container is an actual keyframe, judged by
/// parsing the emitted bytes. Keyframe forcing is only advisory, so the
/// downstream gating depends on this parse, not on the request flag.
#[verifier::loop_isolation(false)]
pub fn is_keyframe_from_video_frame(vf: &VideoFrame) -> (r: bool)
    ensures
        r == spec_is_keyframe(*vf),
{
    match &vf.frames_union {
        Some(VideoFrameUnion::Vp8s(fs)) => {
            let n = fs.frames.len();
            let mut k: usize = 0;
            while k < n
                invariant
                    k <= n == fs.frames@.len(),
                    forall|j: int|
                        0 <= j < k ==> !spec_vpx_frame_is_key(#[trigger] fs.frames@[j]),
                decreases n - k,
            {
                if vpx_frame_is_key(&fs.frames[k]) {
                    proof {
                        assert(spec_vpx_frame_is_key(fs.frames@[k as int]));
                    }
                    return true;
                }
                k = k + 1;
            }
            false
        },
        Some(VideoFrameUnion::Vp9s(fs)) => {
            let n = fs.frames.len();
            let mut k: usize = 0;
            while k < n
                invariant
                    k <= n == fs.frames@.len(),
                    forall|j: int|
                        0 <= j < k ==> !spec_vpx_frame_is_key(#[trigger] fs.frames@[j]),
                decreases n - k,
            {
                if vpx_frame_is_key(&fs.frames[k]) {
                    proof {
                        assert(spec_vpx_frame_is_key(fs.frames@[k as int]));
                    }
                    return true;
                }
                k = k + 1;
            }
            false
        },
        Some(VideoFrameUnion::H264s(fs)) => {
            let n = fs.frames.len();
            let mut k: usize = 0;
            while k < n
                invariant
                    k <= n == fs.frames@.len(),
                    forall|j: int|
                        0 <= j < k ==> !spec_h264_frame_is_key(#[trigger] fs.frames@[j]),
                decreases n - k,
            {
                if h264_frame_is_key(&fs.frames[k]) {
                    proof {
                        assert(spec_h264_frame_is_key(fs.frames@[k as int]));
                    }
                    return true;
                }
                k = k + 1;
            }
            false
        },
        Some(VideoFrameUnion::H265s(fs)) => {
            let n = fs.frames.len();
            let mut k: usize = 0;
            while k < n
                invariant
                    k <= n == fs.frames@.len(),
                    forall|j: int|
                        0 <= j < k ==> !spec_h265_frame_is_key(#[trigger] fs.frames@[j]),
                decreases n - k,
            {
                if h265_frame_is_key(&fs.frames[k]) {
                    proof {
                        assert(spec_h265_frame_is_key(fs.frames@[k as int]));
                    }
                    return true;
                }
                k = k + 1;
            }
            false
        },
        Some(VideoFrameUnion::Av1s(fs)) => {
            let n = fs.frames.len();
            let mut k: usize = 0;
            while k < n
                invariant
                    k <= n == fs.frames@.len(),
                    forall|j: int| 0 <= j < k ==> !(#[trigger] fs.frames@[j]).key,
                decreases n - k,
            {
                if fs.frames[k].key {
                    proof {
                        assert((fs.frames@[k as int]).key);
                    }
                    return true;
                }
                k = k + 1;
            }
            false
        },
        None => false,
    }
}

/// The bytes the pipeline forwards for a frame container: the first
/// frame's data, or nothing when the container is empty.
pub open spec fn spec_video_frame_to_bytes(vf: VideoFrame) -> Seq<u8> {
    match vf.frames_union {
        Some(VideoFrameUnion::Vp8s(fs)) => if fs.frames@.len() > 0 {
            fs.frames@[0].data@
        } else {
            Seq::empty()
        },
        Some(VideoFrameUnion::Vp9s(fs)) => if fs.frames@.len() > 0 {
            fs.frames@[0].data@
        } else {
            Seq::empty()
        },
        Some(VideoFrameUnion::H264s(fs)) => if fs.frames@.len() > 0 {
            fs.frames@[0].data@
        } else {
            Seq::empty()
        },
        Some(VideoFrameUnion::H265s(fs)) => if fs.frames@.len() > 0 {
            fs.frames@[0].data@
        } else {
            Seq::empty()
        },
        Some(VideoFrameUnion::Av1s(fs)) => if fs.frames@.len() > 0 {
            fs.frames@[0].data@
        } else {
            Seq::empty()
        },
        None => Seq::empty(),
    }
}

/// Extract the bytes the pipeline forwards for a frame container.
pub fn video_frame_to_bytes(vf: &VideoFrame) -> (r: Vec<u8>)
    ensures
        r@ == spec_video_frame_to_bytes(*vf),
{
    match &vf.frames_union {
        Some(VideoFrameUnion::Vp8s(fs)) => if fs.frames.len() > 0 {
            crate::frame_prep::clone_bytes(&fs.frames[0].data)
        } else {
            Vec::new()
        },
        Some(VideoFrameUnion::Vp9s(fs)) => if fs.frames.len() > 0 {
            crate::frame_prep::clone_bytes(&fs.frames[0].data)
        } else {
            Vec::new()
        },
        Some(VideoFrameUnion::H264s(fs)) => if fs.frames.len() > 0 {
            crate::frame_prep::clone_bytes(&fs.frames[0].data)
        } else {
            Vec::new()
        },
        Some(VideoFrameUnion::H265s(fs)) => if fs.frames.len() > 0 {
            crate::frame_prep::clone_bytes(&fs.frames[0].data)
        } else {
            Vec::new()
        },
        Some(VideoFrameUnion::Av1s(fs)) => if fs.frames.len() > 0 {
            crate::frame_prep::clone_bytes(&fs.frames[0].data)
        } else {
            Vec::new()
        },
        None => Vec::new(),
    }
}

// ---------------------------------------------------------------------------
// Frame-size history and quality self-regulation
// ---------------------------------------------------------------------------
/// The rolling history of recent encoded-frame sizes: the sizes, their
/// running total, and the count of large frames since the last
/// adjustment.
pub struct FrameSizeTracker {
    /// The last few frame sizes, oldest first.
    pub frame_sizes: VecDeque<u32>,
    /// The sum of the stored sizes.
    pub total_size: u64,
    /// Frames larger than twice the target since the last adjustment.
    pub large_frame_count: u64,
    /// When the quality was last adjusted, in milliseconds.
    pub last_adjustment_ms: i64,
}

impl FrameSizeTracker {
    /// The history holds at most its nominal length and the total equals
    /// the sum of the stored sizes.
    pub open spec fn wf(self) -> bool {
        &&& self.frame_sizes@.len() <= FRAME_SIZE_HISTORY_LEN
        &&& self.total_size == seq_sum_u32(self.frame_sizes@)
        &&& self.last_adjustment_ms >= 0
    }

    /// An empty tracker.
    pub fn new() -> (r: Self)
        ensures
            r.wf(),
            r.frame_sizes@.len() == 0,
            r.large_frame_count == 0,
            r.last_adjustment_ms == 0,
    {
        FrameSizeTracker {
            frame_sizes: VecDeque::new(),
            total_size: 0,
            large_frame_count: 0,
            last_adjustment_ms: 0,
        }
    }

    /// Record one frame size: the oldest size leaves a full history, and
    /// frames over twice the target count as large.
    pub fn add_frame_size(&mut self, size: u32)
        requires
            old(self).wf(),
        ensures
            final(self).wf(),
            final(self).frame_sizes@ == if old(self).frame_sizes@.len()
                >= FRAME_SIZE_HISTORY_LEN {
                old(self).frame_sizes@.drop_first().push(size)
            } else {
                old(self).frame_sizes@.push(size)
            },
            final(self).large_frame_count == if size > 2 * TARGET_FRAME_SIZE_1080P {
                if old(self).large_frame_count == u64::MAX {
                    u64::MAX
                } else {
                    (old(self).large_frame_count + 1) as u64
                }
            } else {
                old(self).large_frame_count
            },
            final(self).last_adjustment_ms == old(self).last_adjustment_ms,
    {
        proof {
            lemma_seq_sum_u32_bound(self.frame_sizes@);
        }
        if self.frame_sizes.len() >= FRAME_SIZE_HISTORY_LEN {
            proof {
                lemma_seq_sum_u32_bound(self.frame_sizes@.drop_first());
                assert(seq_sum_u32(self.frame_sizes@) == self.frame_sizes@[0] + seq_sum_u32(
                    self.frame_sizes@.drop_first(),
                ));
            }
            if let Some(old_size) = self.frame_sizes.pop_front() {
                self.total_size = self.total_size - (old_size as u64);
            }
        }
        proof {
            lemma_seq_sum_u32_push(self.frame_sizes@, size);
            lemma_seq_sum_u32_bound(self.frame_sizes@);
        }
        self.frame_sizes.push_back(size);
        self.total_size = self.total_size + (size as u64);
        if size > 2 * TARGET_FRAME_SIZE_1080P {
            if self.large_frame_count < u64::MAX {
                self.large_frame_count = self.large_frame_count + 1;
            }
        }
    }

    /// The mean of the stored sizes, or zero with no history.
    pub fn average_frame_size(&self) -> (r: u64)
        requires
            self.wf(),
        ensures
            r == if self.frame_sizes@.len() == 0 {
                0int
            } else {
                seq_sum_u32(self.frame_sizes@) / (self.frame_sizes@.len() as int)
            },
    {
        if self.frame_sizes.len() == 0 {
            0
        } else {
            self.total_size / (self.frame_sizes.len() as u64)
        }
    }
}

/// The quality adjustment prescribed by the frame-size history, in
/// milli-units: reductions when the mean or the share of large frames is
/// high, a small raise when both are low, nothing otherwise. Thresholds
/// are multiples of the 1080p target size; shares are compared without
/// division.
pub open spec fn spec_quality_adjustment(avg: int, large: int, len: int) -> Option<i32> {
    if avg > 3 * TARGET_FRAME_SIZE_1080P || 10 * large > 3 * len {
        Some(-300i32)
    } else if avg > 2 * TARGET_FRAME_SIZE_1080P || 5 * large > len {
        Some(-200i32)
    } else if avg > 3 * TARGET_FRAME_SIZE_1080P / 2 {
        Some(-100i32)
    } else if avg < TARGET_FRAME_SIZE_1080P / 2 && 20 * large < len {
        Some(100i32)
    } else {
        None
    }
}

impl FrameSizeTracker {
    /// Every five seconds, the adjustment the history prescribes; taking
    /// it restarts the interval and the large-frame count.
    pub fn should_adjust_quality(&mut self, now_ms: i64) -> (r: Option<i32>)
        requires
            old(self).wf(),
            old(self).frame_sizes@.len() >= 1,
            now_ms >= 0,
        ensures
            final(self).wf(),
            final(self).frame_sizes@ == old(self).frame_sizes@,
            (now_ms < old(self).last_adjustment_ms || now_ms - old(self).last_adjustment_ms
                < QUALITY_ADJUST_INTERVAL_MS) ==> r is None && *final(self) == *old(self),
            !(now_ms < old(self).last_adjustment_ms || now_ms - old(self).last_adjustment_ms
                < QUALITY_ADJUST_INTERVAL_MS) ==> {
                let avg = seq_sum_u32(old(self).frame_sizes@) / (old(self).frame_sizes@.len()
                    as int);
                &&& r == spec_quality_adjustment(
                    avg,
                    old(self).large_frame_count as int,
                    old(self).frame_sizes@.len() as int,
                )
                &&& (r is Some ==> final(self).last_adjustment_ms == now_ms
                    && final(self).large_frame_count == 0)
                &&& (r is None ==> *final(self) == *old(self))
            },
    {
        if now_ms < self.last_adjustment_ms || now_ms - self.last_adjustment_ms
            < QUALITY_ADJUST_INTERVAL_MS {
            return None;
        }
        let avg_size = self.average_frame_size();
        let len = self.frame_sizes.len() as u64;
        let large = self.large_frame_count;
        let adjustment: i32 = if avg_size > 3 * (TARGET_FRAME_SIZE_1080P as u64) || (large
            > u64::MAX / 10 || 10 * large > 3 * len) {
            -300
        } else if avg_size > 2 * (TARGET_FRAME_SIZE_1080P as u64) || (large > u64::MAX / 5 || 5
            * large > len) {
            -200
        } else if avg_size > 3 * (TARGET_FRAME_SIZE_1080P as u64) / 2 {
            -100
        } else if avg_size < (TARGET_FRAME_SIZE_1080P as u64) / 2 && (large <= u64::MAX / 20 && 20
            * large < len) {
            100
        } else {
            return None;
        };
        self.last_adjustment_ms = now_ms;
        self.large_frame_count = 0;
        Some(adjustment)
    }
}

// ---------------------------------------------------------------------------
// Encoder configuration
// ---------------------------------------------------------------------------
/// A quality setting: bitrate ratio in milli-units, bitrate in bits per
/// second, and the keyframe interval in frames.
#[derive(Debug, Clone, Copy)]
pub struct VideoQuality {
    /// The bitrate ratio, in milli-units.
    pub ratio_milli: u32,
    /// The target bitrate in bits per second.
    pub bitrate: u32,
    /// Frames between keyframes; new clients need these to join a
    /// running stream.
    pub keyframe_interval: Option<usize>,
}

impl Default for VideoQuality {
    fn default() -> (r: Self)
        ensures
            r.ratio_milli == 500,
            r.bitrate == 2000000,
            r.keyframe_interval == Some(60usize),
    {
        VideoQuality { ratio_milli: 500, bitrate: 2000000, keyframe_interval: Some(60) }
    }
}

/// The failures of encoder-configuration validation.
#[derive(Debug, Clone, Copy, PartialEq, Eq, Structural)]
pub enum EncoderError {
    /// A dimension is zero.
    InvalidDimensions,
    /// A dimension exceeds the 4096 bound.
    DimensionsTooLarge,
    /// A dimension is odd.
    OddDimensions,
}

/// The configuration the encoder wrapper is built with.
#[derive(Debug, Clone, Copy)]
pub struct VideoEncoderConfig {
    /// Width in pixels.
    pub width: usize,
    /// Height in pixels.
    pub height: usize,
    /// The quality settings.
    pub quality: VideoQuality,
    /// The codec to encode with.
    pub codec_format: CodecFormat,
    /// Target frames per second.
    pub fps: u32,
}

impl VideoEncoderConfig {
    /// A configuration for a resolution: dimensions aligned down to even
    /// values, VP8 for real-time speed, a bitrate preset by resolution,
    /// and the balanced ratio.
    pub fn new(width: usize, height: usize) -> (r: Self)
        ensures
            r.width == width - (width % 2),
            r.height == height - (height % 2),
            r.codec_format == CodecFormat::VP8,
            r.fps == 30,
            r.quality.ratio_milli == ENC_RATIO_BALANCED_MILLI,
            r.quality.keyframe_interval == Some(60usize),
            r.quality.bitrate == spec_preset_bitrate(
                (width - (width % 2)) as int,
                (height - (height % 2)) as int,
            ),
    {
        let (aligned_width, aligned_height) = crate::frame_prep::align_dimensions(width, height);
        let bitrate: u32 = if aligned_width == 1920 && aligned_height == 1080 {
            2500000
        } else if aligned_width == 1280 && aligned_height == 720 {
            1500000
        } else if aligned_width == 1366 && aligned_height == 768 {
            1500000
        } else {
            800000
        };
        VideoEncoderConfig {
            width: aligned_width,
            height: aligned_height,
            quality: VideoQuality {
                ratio_milli: ENC_RATIO_BALANCED_MILLI,
                bitrate,
                keyframe_interval: Some(60),
            },
            codec_format: CodecFormat::VP8,
            fps: 30,
        }
    }

    /// Replace the quality ratio, clamped into the encoder band.
    pub fn with_quality(self, quality_milli: u32) -> (r: Self)
        ensures
            r == (VideoEncoderConfig {
                quality: VideoQuality {
                    ratio_milli: if quality_milli < ENC_RATIO_MIN_MILLI {
                        ENC_RATIO_MIN_MILLI
                    } else if quality_milli > ENC_RATIO_MAX_MILLI {
                        ENC_RATIO_MAX_MILLI
                    } else {
                        quality_milli
                    },
                    ..self.quality
                },
                ..self
            }),
    {
        let clamped = if quality_milli < ENC_RATIO_MIN_MILLI {
            ENC_RATIO_MIN_MILLI
        } else if quality_milli > ENC_RATIO_MAX_MILLI {
            ENC_RATIO_MAX_MILLI
        } else {
            quality_milli
        };
        VideoEncoderConfig { quality: VideoQuality { ratio_milli: clamped, ..self.quality }, ..self }
    }

    /// Replace the codec.
    pub fn with_codec(self, codec: CodecFormat) -> (r: Self)
        ensures
            r == (VideoEncoderConfig { codec_format: codec, ..self }),
    {
        VideoEncoderConfig { codec_format: codec, ..self }
    }

    /// Replace the target FPS.
    pub fn with_fps(self, fps: u32) -> (r: Self)
        ensures
            r == (VideoEncoderConfig { fps, ..self }),
    {
        VideoEncoderConfig { fps, ..self }
    }
}

/// The bitrate preset chosen for a resolution.
pub open spec fn spec_preset_bitrate(width: int, height: int) -> u32 {
    if width == 1920 && height == 1080 {
        2500000
    } else if width == 1280 && height == 720 {
        1500000
    } else if width == 1366 && height == 768 {
        1500000
    } else {
        800000
    }
}

/// Whether a configuration passes the encoder's validation: both
/// dimensions positive, even, and at most 4096.
pub open spec fn spec_config_valid(width: int, height: int) -> bool {
    &&& width > 0 && height > 0
    &&& width <= MAX_ENCODER_DIMENSION && height <= MAX_ENCODER_DIMENSION
    &&& width % 2 == 0 && height % 2 == 0
}

/// Validate a configuration and lower it to the native encoder's form:
/// the quality of the quirky 1366x768 mode is reduced to four fifths, and
/// codecs other than VP8 or VP9 fall back to VP8.
pub fn create_encoder_config(config: &VideoEncoderConfig) -> (r: Result<
    VpxEncoderConfig,
    EncoderError,
>)
    ensures
        r is Ok <==> config.width > 0 && config.height > 0 && config.width
            <= MAX_ENCODER_DIMENSION && config.height <= MAX_ENCODER_DIMENSION,
        r is Err ==> r->Err_0 == (if config.width == 0 || config.height == 0 {
            EncoderError::InvalidDimensions
        } else {
            EncoderError::DimensionsTooLarge
        }),
        r is Ok ==> {
            let c = r->Ok_0;
            &&& c.width == config.width
            &&& c.height == config.height
            &&& c.keyframe_interval == config.quality.keyframe_interval
            &&& c.codec == (match config.codec_format {
                CodecFormat::VP9 => VpxVideoCodecId::VP9,
                _ => VpxVideoCodecId::VP8,
            })
            &&& c.quality_milli == (if config.width == 1366 && config.height == 768 {
                let reduced = config.quality.ratio_milli * 4 / 5;
                if reduced < ENC_RATIO_MIN_MILLI {
                    ENC_RATIO_MIN_MILLI
                } else {
                    reduced as u32
                }
            } else {
                config.quality.ratio_milli
            })
        },
{
    if config.width == 0 || config.height == 0 {
        return Err(EncoderError::InvalidDimensions);
    }
    if config.width > MAX_ENCODER_DIMENSION || config.height > MAX_ENCODER_DIMENSION {
        return Err(EncoderError::DimensionsTooLarge);
    }
    let adjusted_quality: u32 = if config.width == 1366 && config.height == 768 {
        let reduced64: u64 = (config.quality.ratio_milli as u64) * 4 / 5;
        let reduced = reduced64 as u32;
        if reduced < ENC_RATIO_MIN_MILLI {
            ENC_RATIO_MIN_MILLI
        } else {
            reduced
        }
    } else {
        config.quality.ratio_milli
    };
    let codec = match config.codec_format {
        CodecFormat::VP9 => VpxVideoCodecId::VP9,
        _ => VpxVideoCodecId::VP8,
    };
    Ok(
        VpxEncoderConfig {
            width: config.width as u32,
            height: config.height as u32,
            quality_milli: adjusted_quality,
            codec,
            keyframe_interval: config.quality.keyframe_interval,
        },
    )
}

/// The cascade of configurations tried at encoder creation: the requested
/// one; VP8 at four fifths of the quality; VP9 at the default quality;
/// VP8 at minimum quality and 15 FPS; and last a software-safe VP8 setup
/// with four-aligned dimensions and sparse keyframes.
pub fn fallback_configs(config: &VideoEncoderConfig) -> (r: Vec<VideoEncoderConfig>)
    ensures
        r@.len() == 5,
        r@[0] == *config,
        r@[1] == (VideoEncoderConfig {
            codec_format: CodecFormat::VP8,
            quality: VideoQuality {
                ratio_milli: if config.quality.ratio_milli * 4 / 5 < ENC_RATIO_MIN_MILLI {
                    ENC_RATIO_MIN_MILLI
                } else {
                    (config.quality.ratio_milli * 4 / 5) as u32
                },
                ..config.quality
            },
            ..*config
        }),
        r@[2] == (VideoEncoderConfig {
            codec_format: CodecFormat::VP9,
            quality: VideoQuality { ratio_milli: ENC_RATIO_DEFAULT_MILLI, ..config.quality },
            ..*config
        }),
        r@[3] == (VideoEncoderConfig {
            codec_format: CodecFormat::VP8,
            quality: VideoQuality {
                ratio_milli: ENC_RATIO_MIN_MILLI,
                bitrate: 1000000,
                ..config.quality
            },
            fps: 15,
            ..*config
        }),
        r@[4] == (VideoEncoderConfig {
            width: (config.width - (config.width % 4)) as usize,
            height: (config.height - (config.height % 4)) as usize,
            quality: VideoQuality {
                ratio_milli: ENC_RATIO_MIN_MILLI,
                bitrate: 500000,
                keyframe_interval: Some(300usize),
            },
            codec_format: CodecFormat::VP8,
            fps: 15,
        }),
{
    let mut cascade: Vec<VideoEncoderConfig> = Vec::new();
    cascade.push(*config);

    let reduced64: u64 = (config.quality.ratio_milli as u64) * 4 / 5;
    let reduced = if reduced64 < ENC_RATIO_MIN_MILLI as u64 {
        ENC_RATIO_MIN_MILLI
    } else {
        reduced64 as u32
    };
    cascade.push(
        VideoEncoderConfig {
            codec_format: CodecFormat::VP8,
            quality: VideoQuality { ratio_milli: reduced, ..config.quality },
            ..*config
        },
    );
    cascade.push(
        VideoEncoderConfig {
            codec_format: CodecFormat::VP9,
            quality: VideoQuality { ratio_milli: ENC_RATIO_DEFAULT_MILLI, ..config.quality },
            ..*config
        },
    );
    cascade.push(
        VideoEncoderConfig {
            codec_format: CodecFormat::VP8,
            quality: VideoQuality {
                ratio_milli: ENC_RATIO_MIN_MILLI,
                bitrate: 1000000,
                ..config.quality
            },
            fps: 15,
            ..*config
        },
    );
    cascade.push(
        VideoEncoderConfig {
            width: config.width - (config.width % 4),
            height: config.height - (config.height % 4),
            quality: VideoQuality {
                ratio_milli: ENC_RATIO_MIN_MILLI,
                bitrate: 500000,
                keyframe_interval: Some(300),
            },
            codec_format: CodecFormat::VP8,
            fps: 15,
        },
    );
    cascade
}

// ---------------------------------------------------------------------------
// The encoder wrapper state machine
// ---------------------------------------------------------------------------
/// Counters the wrapper keeps about its encoding work.
#[derive(Debug, Clone, Copy)]
pub struct EncodeStats {
    /// Frames handed to the encoder.
    pub total_frames: u64,
    /// Bytes of all emitted payloads.
    pub total_size: u64,
    /// Actual keyframes observed.
    pub keyframes: u64,
    /// Frames dropped as oversize.
    pub skipped_frames: u64,
    /// Frames over the size bound.
    pub large_frames: u64,
}

/// What the native encode call produced for one input: a frame container,
/// or a failure (an error or a panic behind the panic boundary).
pub enum EncodeOutcome {
    /// The encoder produced a frame container.
    Frame(VideoFrame),
    /// The encoder failed; the frame is skipped.
    Failed,
}

/// The frame-size bound for a width: the 1080p bound at or above 1920
/// pixels, half of it below.
pub open spec fn spec_max_frame_size(width: int) -> int {
    if width >= 1920 {
        MAX_FRAME_SIZE_1080P as int
    } else {
        MAX_FRAME_SIZE_1080P as int / 2
    }
}

/// One more, saturating at the type's maximum.
pub open spec fn spec_incr_u64(x: u64) -> u64 {
    if x == u64::MAX {
        u64::MAX
    } else {
        (x + 1) as u64
    }
}

/// The encoder wrapper: configuration, keyframe bookkeeping, the
/// frame-size history, and the dummy mode that keeps the pipeline
/// observable when no native encoder could be created.
pub struct EnhancedVideoEncoder {
    /// The validated configuration.
    pub config: VideoEncoderConfig,
    /// Frames processed so far.
    pub frame_count: u64,
    /// The frame number of the last observed keyframe.
    pub last_keyframe: u64,
    /// Counters about the encoding work.
    pub encode_stats: EncodeStats,
    /// The rolling frame-size history.
    pub frame_size_tracker: FrameSizeTracker,
    /// The quality currently applied, in milli-units.
    pub current_quality_milli: u32,
    /// The bitrate currently targeted.
    pub bitrate: u32,
    /// Whether a keyframe was requested and not yet observed.
    pub force_next_frame_keyframe: bool,
    /// Whether the most recent emitted frame was an actual keyframe.
    pub last_frame_was_keyframe: bool,
    /// Whether no native encoder exists and marker payloads are emitted.
    pub dummy_mode: bool,
}

impl EnhancedVideoEncoder {
    /// The wrapper invariant: even dimensions of at most 4096, a quality
    /// in the encoder band, a well-formed size history, and a keyframe
    /// mark that never outruns the frame count.
    pub open spec fn wf(self) -> bool {
        &&& spec_config_valid(self.config.width as int, self.config.height as int)
        &&& ENC_RATIO_MIN_MILLI <= self.current_quality_milli <= ENC_RATIO_MAX_MILLI
        &&& self.frame_size_tracker.wf()
        &&& self.last_keyframe <= self.frame_count
    }

    /// Build the wrapper for a validated configuration. Succeeds exactly
    /// on positive, even dimensions of at most 4096; `native_created`
    /// says whether a native encoder exists, and without one the wrapper
    /// starts in dummy mode.
    pub fn new(config: VideoEncoderConfig, native_created: bool) -> (r: Result<
        Self,
        EncoderError,
    >)
        ensures
            r is Ok <==> spec_config_valid(config.width as int, config.height as int),
            r is Err ==> r->Err_0 == (if config.width == 0 || config.height == 0 {
                EncoderError::InvalidDimensions
            } else if config.width > MAX_ENCODER_DIMENSION || config.height
                > MAX_ENCODER_DIMENSION {
                EncoderError::DimensionsTooLarge
            } else {
                EncoderError::OddDimensions
            }),
            r is Ok ==> {
                let e = r->Ok_0;
                &&& e.wf()
                &&& e.config == config
                &&& e.frame_count == 0
                &&& e.last_keyframe == 0
                &&& !e.force_next_frame_keyframe
                &&& !e.last_frame_was_keyframe
                &&& e.dummy_mode == !native_created
                &&& e.current_quality_milli == (if config.quality.ratio_milli
                    < ENC_RATIO_MIN_MILLI {
                    ENC_RATIO_MIN_MILLI
                } else if config.quality.ratio_milli > ENC_RATIO_MAX_MILLI {
                    ENC_RATIO_MAX_MILLI
                } else {
                    config.quality.ratio_milli
                })
                &&& e.bitrate == config.quality.bitrate
            },
    {
        if config.width == 0 || config.height == 0 {
            return Err(EncoderError::InvalidDimensions);
        }
        if config.width > MAX_ENCODER_DIMENSION || config.height > MAX_ENCODER_DIMENSION {
            return Err(EncoderError::DimensionsTooLarge);
        }
        if config.width % 2 != 0 || config.height % 2 != 0 {
            return Err(EncoderError::OddDimensions);
        }
        let current_quality_milli = if config.quality.ratio_milli < ENC_RATIO_MIN_MILLI {
            ENC_RATIO_MIN_MILLI
        } else if config.quality.ratio_milli > ENC_RATIO_MAX_MILLI {
            ENC_RATIO_MAX_MILLI
        } else {
            config.quality.ratio_milli
        };
        let bitrate = config.quality.bitrate;
        Ok(
            EnhancedVideoEncoder {
                config,
                frame_count: 0,
                last_keyframe: 0,
                encode_stats: EncodeStats {
                    total_frames: 0,
                    total_size: 0,
                    keyframes: 0,
                    skipped_frames: 0,
                    large_frames: 0,
                },
                frame_size_tracker: FrameSizeTracker::new(),
                current_quality_milli,
                bitrate,
                force_next_frame_keyframe: false,
                last_frame_was_keyframe: false,
                dummy_mode: !native_created,
            },
        )
    }

    /// Whether the most recent emitted frame was an actual keyframe, as
    /// found by parsing its bytes.
    pub fn was_last_frame_keyframe(&self) -> (r: bool)
        ensures
            r == self.last_frame_was_keyframe,
    {
        self.last_frame_was_keyframe
    }

    /// Request a keyframe. The request is advisory: it is cleared only
    /// when a true keyframe is observed in the emitted bytes.
    pub fn force_keyframe(&mut self)
        ensures
            *final(self) == (EnhancedVideoEncoder {
                force_next_frame_keyframe: true,
                ..*old(self)
            }),
    {
        self.force_next_frame_keyframe = true;
    }

    /// Whether the native encoder can change quality while running; no
    /// native encoder exists in dummy mode.
    pub fn support_changing_quality(&self) -> (r: bool)
        ensures
            r == !self.dummy_mode,
    {
        !self.dummy_mode
    }

    /// The bitrate currently targeted; zero in dummy mode.
    pub fn bitrate(&self) -> (r: u32)
        ensures
            r == if self.dummy_mode {
                0u32
            } else {
                self.bitrate
            },
    {
        if self.dummy_mode {
            0
        } else {
            self.bitrate
        }
    }

    /// The encoder's frame dimensions.
    pub fn target_dimensions(&self) -> (r: (usize, usize))
        ensures
            r.0 == self.config.width,
            r.1 == self.config.height,
    {
        (self.config.width, self.config.height)
    }

    /// The configured codec.
    pub fn codec_format(&self) -> (r: CodecFormat)
        ensures
            r == self.config.codec_format,
    {
        self.config.codec_format
    }

    /// Whether the wrapper runs without a native encoder.
    pub fn is_dummy(&self) -> (r: bool)
        ensures
            r == self.dummy_mode,
    {
        self.dummy_mode
    }

    /// Frames processed so far.
    pub fn frame_count(&self) -> (r: u64)
        ensures
            r == self.frame_count,
    {
        self.frame_count
    }

    /// The row stride the encoder expects of prepared input.
    pub fn expected_stride(&self) -> (r: usize)
        requires
            self.wf(),
        ensures
            r == self.config.width * 4,
    {
        self.config.width * 4
    }

    /// Apply a new quality ratio, clamped into the encoder band; the
    /// target bitrate follows the base bitrate of the resolution.
    pub fn set_quality(&mut self, quality_milli: u32)
        requires
            old(self).wf(),
        ensures
            final(self).wf(),
            final(self).current_quality_milli == (if quality_milli < ENC_RATIO_MIN_MILLI {
                ENC_RATIO_MIN_MILLI
            } else if quality_milli > ENC_RATIO_MAX_MILLI {
                ENC_RATIO_MAX_MILLI
            } else {
                quality_milli
            }),
            final(self).bitrate == spec_calc_bitrate(
                old(self).config.width as u32,
                old(self).config.height as u32,
                final(self).current_quality_milli,
            ),
            *final(self) == (EnhancedVideoEncoder {
                current_quality_milli: final(self).current_quality_milli,
                bitrate: final(self).bitrate,
                ..*old(self)
            }),
    {
        let clamped = if quality_milli < ENC_RATIO_MIN_MILLI {
            ENC_RATIO_MIN_MILLI
        } else if quality_milli > ENC_RATIO_MAX_MILLI {
            ENC_RATIO_MAX_MILLI
        } else {
            quality_milli
        };
        self.current_quality_milli = clamped;
        self.bitrate = calc_bitrate(
            self.config.width as u32,
            self.config.height as u32,
            clamped,
        );
    }

    /// Whether the next encode should ask for a keyframe: one was
    /// requested, the keyframe interval has elapsed, or nothing was
    /// encoded yet.
    pub fn should_force_keyframe(&self) -> (r: bool)
        requires
            self.wf(),
        ensures
            r == (self.force_next_frame_keyframe || self.frame_count - self.last_keyframe
                >= (match self.config.quality.keyframe_interval {
                Some(v) => v as int,
                None => 60,
            }) || self.frame_count == 0),
    {
        let frames_since_keyframe = self.frame_count - self.last_keyframe;
        let keyframe_interval: u64 = match self.config.quality.keyframe_interval {
            Some(v) => v as u64,
            None => 60,
        };
        self.force_next_frame_keyframe || frames_since_keyframe >= keyframe_interval
            || self.frame_count == 0
    }

    /// Process the outcome of one native encode call (or emit a marker
    /// payload in dummy mode). One input yields at most one payload:
    ///
    /// - In dummy mode a fixed 100-byte payload keeps the pipeline
    ///   observable.
    /// - A failed call drops the frame and changes nothing else.
    /// - An empty container yields nothing.
    /// - A payload over twice the size bound is dropped and counted as
    ///   skipped, so oversize frames never reach the channel.
    /// - Any other payload is returned; the keyframe flag is set by
    ///   parsing the payload bytes, and the frame-size history adjusts
    ///   the quality every five seconds.
    pub fn encode_input(&mut self, outcome: EncodeOutcome, timestamp_ms: i64) -> (r: Option<
        Vec<u8>,
    >)
        requires
            old(self).wf(),
            timestamp_ms >= 0,
        ensures
            final(self).wf(),
            old(self).dummy_mode ==> r is Some && r->Some_0@ == Seq::new(100nat, |i: int| 0u8)
                && final(self).frame_count == spec_incr_u64(old(self).frame_count),
            !old(self).dummy_mode && outcome is Failed ==> r is None && *final(self) == *old(
                self,
            ),
            !old(self).dummy_mode && outcome is Frame ==> {
                let vf = outcome->Frame_0;
                let data = spec_video_frame_to_bytes(vf);
                &&& final(self).frame_count == spec_incr_u64(old(self).frame_count)
                &&& final(self).last_frame_was_keyframe == spec_is_keyframe(vf)
                &&& (spec_is_keyframe(vf) && old(self).force_next_frame_keyframe
                    ==> !final(self).force_next_frame_keyframe)
                &&& (data.len() == 0 ==> r is None)
                &&& (data.len() > 2 * spec_max_frame_size(old(self).config.width as int)
                    ==> r is None && final(self).encode_stats.skipped_frames == spec_incr_u64(
                    old(self).encode_stats.skipped_frames,
                ) && final(self).encode_stats.large_frames == spec_incr_u64(
                    old(self).encode_stats.large_frames,
                ) && final(self).current_quality_milli == (if old(self).current_quality_milli
                    > ENC_RATIO_MIN_MILLI + 100 {
                    (old(self).current_quality_milli - 100) as u32
                } else {
                    old(self).current_quality_milli
                }))
                &&& (0 < data.len() <= 2 * spec_max_frame_size(old(self).config.width as int)
                    ==> r is Some && r->Some_0@ == data)
            },
    {
        if self.dummy_mode {
            if self.frame_count < u64::MAX {
                self.frame_count = self.frame_count + 1;
            }
            let fake_data: Vec<u8> = vec![0u8; 100];
            proof {
                assert(fake_data@ =~= Seq::new(100nat, |i: int| 0u8));
            }
            self.update_stats(fake_data.len() as u64);
            return Some(fake_data);
        }
        match outcome {
            EncodeOutcome::Failed => None,
            EncodeOutcome::Frame(video_frame) => {
                if self.frame_count < u64::MAX {
                    self.frame_count = self.frame_count + 1;
                }
                let is_actual_keyframe = is_keyframe_from_video_frame(&video_frame);
                self.last_frame_was_keyframe = is_actual_keyframe;
                if is_actual_keyframe {
                    self.last_keyframe = self.frame_count;
                    if self.encode_stats.keyframes < u64::MAX {
                        self.encode_stats.keyframes = self.encode_stats.keyframes + 1;
                    }
                    if self.force_next_frame_keyframe {
                        self.force_next_frame_keyframe = false;
                    }
                }
                let encoded_data = video_frame_to_bytes(&video_frame);
                if encoded_data.len() == 0 {
                    return None;
                }
                let frame_size = encoded_data.len();
                let max_size: usize = if self.config.width >= 1920 {
                    MAX_FRAME_SIZE_1080P
                } else {
                    MAX_FRAME_SIZE_1080P / 2
                };
                if frame_size > max_size {
                    if self.encode_stats.large_frames < u64::MAX {
                        self.encode_stats.large_frames = self.encode_stats.large_frames + 1;
                    }
                    if self.current_quality_milli > ENC_RATIO_MIN_MILLI + 100 {
                        self.current_quality_milli = self.current_quality_milli - 100;
                    }
                    if frame_size > max_size * 2 {
                        if self.encode_stats.skipped_frames < u64::MAX {
                            self.encode_stats.skipped_frames = self.encode_stats.skipped_frames
                                + 1;
                        }
                        return None;
                    }
                }
                self.frame_size_tracker.add_frame_size(frame_size as u32);
                let adjustment = self.frame_size_tracker.should_adjust_quality(timestamp_ms);
                if let Some(adjustment) = adjustment {
                    let proposed: i64 = (self.current_quality_milli as i64) + (adjustment
                        as i64);
                    let new_quality: u32 = if proposed < ENC_RATIO_MIN_MILLI as i64 {
                        ENC_RATIO_MIN_MILLI
                    } else if proposed > ENC_RATIO_MAX_MILLI as i64 {
                        ENC_RATIO_MAX_MILLI
                    } else {
                        proposed as u32
                    };
                    let delta: u32 = if new_quality >= self.current_quality_milli {
                        new_quality - self.current_quality_milli
                    } else {
                        self.current_quality_milli - new_quality
                    };
                    if delta > 50 {
                        self.current_quality_milli = new_quality;
                    }
                }
                self.update_stats(frame_size as u64);
                Some(encoded_data)
            },
        }
    }

    /// Count one emitted payload.
    fn update_stats(&mut self, frame_size: u64)
        ensures
            *final(self) == (EnhancedVideoEncoder {
                encode_stats: final(self).encode_stats,
                ..*old(self)
            }),
            final(self).encode_stats.total_frames == spec_incr_u64(
                old(self).encode_stats.total_frames,
            ),
            final(self).encode_stats.skipped_frames == old(self).encode_stats.skipped_frames,
    {
        if self.encode_stats.total_frames < u64::MAX {
            self.encode_stats.total_frames = self.encode_stats.total_frames + 1;
        }
        if self.encode_stats.total_size <= u64::MAX - frame_size {
            self.encode_stats.total_size = self.encode_stats.total_size + frame_size;
        }
    }
}

/// The bitrate for a resolution and ratio: the base bitrate scaled by the
/// ratio in milli-units.
pub open spec fn spec_calc_bitrate(width: u32, height: u32, ratio_milli: u32) -> u32 {
    let b = crate::video::spec_base_bitrate(width, height) * ratio_milli / 1000;
    if b > u32::MAX {
        u32::MAX
    } else {
        b as u32
    }
}

/// The bitrate for a resolution and ratio.
pub fn calc_bitrate(width: u32, height: u32, ratio_milli: u32) -> (r: u32)
    ensures
        r == spec_calc_bitrate(width, height, ratio_milli),
{
    let base = crate::video::base_bitrate(width, height);
    proof {
        assert((base as int) * (ratio_milli as int) <= 0xffffffff * 0xffffffff)
            by (nonlinear_arith)
            requires
                base <= 0xffffffff,
                ratio_milli <= 0xffffffff,
        ;
    }
    let b64: u64 = (base as u64) * (ratio_milli as u64) / 1000;
    if b64 > 0xffffffff {
        0xffffffff
    } else {
        b64 as u32
    }
}

} // verus!

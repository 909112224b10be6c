//! The data model of the video path: pixel formats, codec identifiers,
//! encoded-frame containers, bitrate presets, and the YUV working buffer.

use vstd::prelude::*;

verus! {

/// Stride alignment the encoder requires of its input planes.
pub const STRIDE_ALIGN: usize = 64;

/// Destination layouts for decoded images.
#[derive(Debug, Clone, Copy, PartialEq, Eq, Structural)]
pub enum ImageFormat {
    Raw,
    ABGR,
    ARGB,
}

/// A decoded RGB image buffer with its intended format and row alignment.
#[derive(Clone)]
pub struct ImageRgb {
    /// The pixel bytes.
    pub raw: Vec<u8>,
    /// Width in pixels.
    pub w: usize,
    /// Height in pixels.
    pub h: usize,
    /// The destination pixel format.
    pub fmt: ImageFormat,
    /// Row alignment in bytes.
    pub align: usize,
}

impl ImageRgb {
    /// An empty image with a chosen format and alignment.
    pub fn new(fmt: ImageFormat, align: usize) -> (r: Self)
        ensures
            r.raw@.len() == 0,
            r.w == 0,
            r.h == 0,
            r.fmt == fmt,
            r.align == align,
    {
        ImageRgb { raw: Vec::new(), w: 0, h: 0, fmt, align }
    }

    /// The image's pixel format.
    pub fn fmt(&self) -> (r: ImageFormat)
        ensures
            r == self.fmt,
    {
        self.fmt
    }

    /// The image's row alignment.
    pub fn align(&self) -> (r: usize)
        ensures
            r == self.align,
    {
        self.align
    }

    /// Change the row alignment.
    pub fn set_align(&mut self, align: usize)
        ensures
            *final(self) == (ImageRgb { align, ..*old(self) }),
    {
        self.align = align;
    }
}

/// Source and destination pixel formats of the conversion stage.
#[derive(Debug, PartialEq, Eq, Clone, Copy, Structural)]
pub enum Pixfmt {
    BGRA,
    RGBA,
    RGB565LE,
    I420,
    NV12,
    I444,
}

impl Pixfmt {
    /// Bits per pixel of this format.
    pub fn bpp(&self) -> (r: usize)
        ensures
            r == match *self {
                Pixfmt::BGRA | Pixfmt::RGBA => 32usize,
                Pixfmt::RGB565LE => 16usize,
                Pixfmt::I420 | Pixfmt::NV12 => 12usize,
                Pixfmt::I444 => 24usize,
            },
    {
        match self {
            Pixfmt::BGRA | Pixfmt::RGBA => 32,
            Pixfmt::RGB565LE => 16,
            Pixfmt::I420 | Pixfmt::NV12 => 12,
            Pixfmt::I444 => 24,
        }
    }

    /// Bytes per pixel of this format, rounded up.
    pub fn bytes_per_pixel(&self) -> (r: usize)
        ensures
            r == match *self {
                Pixfmt::BGRA | Pixfmt::RGBA => 4usize,
                Pixfmt::RGB565LE => 2usize,
                Pixfmt::I420 | Pixfmt::NV12 => 2usize,
                Pixfmt::I444 => 3usize,
            },
    {
        (self.bpp() + 7) / 8
    }
}

/// What a capture backend's pixel buffer must expose to the pipeline:
/// the raw bytes, the dimensions, the per-plane strides, and the pixel
/// format. Capture backends implement it; the pipeline only reads it.
pub trait TraitPixelBuffer {
    /// The pixel bytes.
    fn data(&self) -> &[u8];

    /// Width in pixels.
    fn width(&self) -> usize;

    /// Height in pixels.
    fn height(&self) -> usize;

    /// Stride of each plane in bytes.
    fn stride(&self) -> Vec<usize>;

    /// The pixel format.
    fn pixfmt(&self) -> Pixfmt;
}

/// The plane layout the encoder expects for its YUV input.
#[derive(Debug, Clone)]
pub struct EncodeYuvFormat {
    /// The YUV pixel format.
    pub pixfmt: Pixfmt,
    /// Width in pixels.
    pub w: usize,
    /// Height in pixels.
    pub h: usize,
    /// Stride of each plane in bytes.
    pub stride: Vec<usize>,
    /// Byte offset of the U plane.
    pub u: usize,
    /// Byte offset of the V plane.
    pub v: usize,
}

/// The codec carried in a PICTURE frame.
#[derive(PartialEq, Eq, Debug, Clone, Copy, Hash, Structural)]
pub enum CodecFormat {
    VP8,
    VP9,
    AV1,
    H264,
    H265,
    Unknown,
}

/// The VPX codec flavors the encoder can be built with.
#[derive(Copy, Clone, Debug, PartialEq, Eq, Hash, Structural)]
pub enum VpxVideoCodecId {
    VP8,
    VP9,
}

impl Default for VpxVideoCodecId {
    /// VP8 is the default: it is severalfold faster than VP9 for
    /// real-time screen sharing.
    fn default() -> (r: Self)
        ensures
            r == VpxVideoCodecId::VP8,
    {
        VpxVideoCodecId::VP8
    }
}

/// Chroma subsampling of the encoder input.
#[derive(Debug, Clone, Copy, PartialEq, Eq, Structural)]
pub enum Chroma {
    I420,
    I444,
}

/// One encoded frame with its keyframe flag and presentation timestamp.
#[derive(Clone)]
pub struct EncodedVideoFrame {
    /// The compressed bytes.
    pub data: Vec<u8>,
    /// Whether the encoder marked this frame as a keyframe.
    pub key: bool,
    /// Presentation timestamp in timebase units.
    pub pts: i64,
}

/// The encoded frames produced by one encoder call.
#[derive(Clone)]
pub struct EncodedVideoFrames {
    /// The frames, in encoding order.
    pub frames: Vec<EncodedVideoFrame>,
}

/// One encoded frame as borrowed from the encoder's output iteration.
#[derive(Clone)]
pub struct EncodeFrame {
    /// The compressed bytes.
    pub data: Vec<u8>,
    /// Whether the frame is a keyframe.
    pub key: bool,
    /// Presentation timestamp in timebase units.
    pub pts: i64,
}

/// The codec-tagged payload of a video frame.
#[derive(Clone)]
pub enum VideoFrameUnion {
    Vp8s(EncodedVideoFrames),
    Vp9s(EncodedVideoFrames),
    H264s(EncodedVideoFrames),
    H265s(EncodedVideoFrames),
    Av1s(EncodedVideoFrames),
}

/// A container for the encoded frames of one capture tick.
#[derive(Clone)]
pub struct VideoFrame {
    /// The codec-tagged frames, if the encoder produced any.
    pub frames_union: Option<VideoFrameUnion>,
    /// The display the frames belong to.
    pub display: i32,
}

impl VideoFrame {
    /// An empty frame container.
    pub fn new() -> (r: Self)
        ensures
            r.frames_union is None,
            r.display == 0,
    {
        VideoFrame { frames_union: None, display: 0 }
    }

    /// Tag the frames as VP8.
    pub fn set_vp8s(&mut self, frames: EncodedVideoFrames)
        ensures
            *final(self) == (VideoFrame {
                frames_union: Some(VideoFrameUnion::Vp8s(frames)),
                ..*old(self)
            }),
    {
        self.frames_union = Some(VideoFrameUnion::Vp8s(frames));
    }

    /// Tag the frames as VP9.
    pub fn set_vp9s(&mut self, frames: EncodedVideoFrames)
        ensures
            *final(self) == (VideoFrame {
                frames_union: Some(VideoFrameUnion::Vp9s(frames)),
                ..*old(self)
            }),
    {
        self.frames_union = Some(VideoFrameUnion::Vp9s(frames));
    }

    /// Tag the frames as H.264.
    pub fn set_h264s(&mut self, frames: EncodedVideoFrames)
        ensures
            *final(self) == (VideoFrame {
                frames_union: Some(VideoFrameUnion::H264s(frames)),
                ..*old(self)
            }),
    {
        self.frames_union = Some(VideoFrameUnion::H264s(frames));
    }

    /// Tag the frames as H.265.
    pub fn set_h265s(&mut self, frames: EncodedVideoFrames)
        ensures
            *final(self) == (VideoFrame {
                frames_union: Some(VideoFrameUnion::H265s(frames)),
                ..*old(self)
            }),
    {
        self.frames_union = Some(VideoFrameUnion::H265s(frames));
    }

    /// Tag the frames as AV1.
    pub fn set_av1s(&mut self, frames: EncodedVideoFrames)
        ensures
            *final(self) == (VideoFrame {
                frames_union: Some(VideoFrameUnion::Av1s(frames)),
                ..*old(self)
            }),
    {
        self.frames_union = Some(VideoFrameUnion::Av1s(frames));
    }

    /// The codec format of the contained frames.
    pub fn codec_format(&self) -> (r: CodecFormat)
        ensures
            r == match self.frames_union {
                Some(VideoFrameUnion::Vp8s(_)) => CodecFormat::VP8,
                Some(VideoFrameUnion::Vp9s(_)) => CodecFormat::VP9,
                Some(VideoFrameUnion::Av1s(_)) => CodecFormat::AV1,
                Some(VideoFrameUnion::H264s(_)) => CodecFormat::H264,
                Some(VideoFrameUnion::H265s(_)) => CodecFormat::H265,
                None => CodecFormat::Unknown,
            },
    {
        match &self.frames_union {
            Some(VideoFrameUnion::Vp8s(_)) => CodecFormat::VP8,
            Some(VideoFrameUnion::Vp9s(_)) => CodecFormat::VP9,
            Some(VideoFrameUnion::Av1s(_)) => CodecFormat::AV1,
            Some(VideoFrameUnion::H264s(_)) => CodecFormat::H264,
            Some(VideoFrameUnion::H265s(_)) => CodecFormat::H265,
            None => CodecFormat::Unknown,
        }
    }
}

/// The codec id carried in PICTURE frames for each codec format.
pub fn get_codec_type_id(codec: &CodecFormat) -> (r: u8)
    ensures
        r == match *codec {
            CodecFormat::VP8 => 1u8,
            CodecFormat::VP9 => 2u8,
            CodecFormat::H264 => 3u8,
            CodecFormat::H265 => 4u8,
            _ => 2u8,
        },
{
    match codec {
        CodecFormat::VP8 => 1,
        CodecFormat::VP9 => 2,
        CodecFormat::H264 => 3,
        CodecFormat::H265 => 4,
        _ => 2,
    }
}

/// The configuration a VPX encoder is built with. The quality ratio is in
/// milli-units.
#[derive(Clone, Copy, Debug)]
pub struct VpxEncoderConfig {
    /// Width in pixels.
    pub width: u32,
    /// Height in pixels.
    pub height: u32,
    /// The bitrate ratio, in milli-units.
    pub quality_milli: u32,
    /// The codec flavor.
    pub codec: VpxVideoCodecId,
    /// Frames between keyframes, or none to disable keyframes.
    pub keyframe_interval: Option<usize>,
}

/// The configuration a VPX decoder is built with.
#[derive(Clone, Copy, Debug)]
pub struct VpxDecoderConfig {
    /// The codec flavor.
    pub codec: VpxVideoCodecId,
}

/// Raised when a captured buffer equals the previous one, so no new frame
/// is due.
#[derive(Debug, Clone, Copy, PartialEq, Eq, Structural)]
pub enum FrameCompareError {
    WouldBlock,
}

/// Report would-block when the new capture equals the remembered bytes;
/// otherwise remember the new bytes.
pub fn would_block_if_equal(old_bytes: &mut Vec<u8>, b: &[u8]) -> (r: Result<
    (),
    FrameCompareError,
>)
    ensures
        r is Err <==> b@ == old(old_bytes)@,
        r is Err ==> final(old_bytes)@ == old(old_bytes)@,
        r is Ok ==> final(old_bytes)@ == b@,
{
    if bytes_equal(old_bytes.as_slice(), b) {
        proof {
            assert(old(old_bytes)@ =~= b@);
        }
        return Err(FrameCompareError::WouldBlock);
    }
    old_bytes.clear();
    old_bytes.extend_from_slice(b);
    proof {
        assert(old_bytes@ =~= b@);
    }
    Ok(())
}

/// Whether two byte slices hold the same bytes.
pub fn bytes_equal(a: &[u8], b: &[u8]) -> (r: bool)
    ensures
        r == (a@ == b@),
{
    let n = a.len();
    if n != b.len() {
        return false;
    }
    let mut i: usize = 0;
    while i < n
        invariant
            i <= n == a@.len() == b@.len(),
            forall|k: int| 0 <= k < i ==> a@[k] == b@[k],
        decreases n - i,
    {
        if a[i] != b[i] {
            return false;
        }
        i = i + 1;
    }
    proof {
        assert(a@ =~= b@);
    }
    true
}

// ---------------------------------------------------------------------------
// Bitrate presets
// ---------------------------------------------------------------------------
/// The resolution presets and their base bitrates in kbps, as pairs of
/// pixel count and bitrate.
pub open spec fn spec_bitrate_presets() -> Seq<(u32, u32)> {
    seq![
        (307200u32, 400u32),
        (480000u32, 500u32),
        (786432u32, 800u32),
        (921600u32, 1000u32),
        (1049088u32, 1100u32),
        (1296000u32, 1300u32),
        (1440000u32, 1500u32),
        (2073600u32, 2073u32),
        (2211840u32, 2200u32),
        (3686400u32, 3000u32),
        (4953600u32, 4000u32),
        (8294400u32, 5000u32),
        (33177600u32, 12000u32),
    ]
}

/// The absolute difference of two pixel counts.
pub open spec fn spec_pixel_distance(a: u32, b: u32) -> int {
    if a >= b {
        a - b
    } else {
        b - a
    }
}

/// The preset whose pixel count is nearest to `pixels`, searching from
/// index `i`; the earlier preset wins ties.
pub open spec fn spec_nearest_preset_from(pixels: u32, i: int) -> (u32, u32)
    decreases spec_bitrate_presets().len() - i,
{
    let presets = spec_bitrate_presets();
    if i < 0 || i >= presets.len() - 1 {
        presets[presets.len() - 1]
    } else {
        let rest = spec_nearest_preset_from(pixels, i + 1);
        let cur = presets[i];
        if spec_pixel_distance(cur.0, pixels) <= spec_pixel_distance(rest.0, pixels) {
            cur
        } else {
            rest
        }
    }
}

/// The base bitrate in kbps for a resolution: the nearest preset's
/// bitrate, scaled by the ratio of the actual to the preset pixel count
/// and rounded to nearest.
pub open spec fn spec_base_bitrate(width: u32, height: u32) -> u32 {
    let pixels: u32 = if width * height > u32::MAX {
        u32::MAX
    } else {
        (width * height) as u32
    };
    let preset = spec_nearest_preset_from(pixels, 0);
    let scaled = ((preset.1 * pixels + preset.0 / 2) as int) / (preset.0 as int);
    if scaled > u32::MAX {
        u32::MAX
    } else {
        scaled as u32
    }
}

/// The base bitrate in kbps for a resolution.
pub fn base_bitrate(width: u32, height: u32) -> (r: u32)
    ensures
        r == spec_base_bitrate(width, height),
{
    let presets: Vec<(u32, u32)> = vec![
        (307200, 400),
        (480000, 500),
        (786432, 800),
        (921600, 1000),
        (1049088, 1100),
        (1296000, 1300),
        (1440000, 1500),
        (2073600, 2073),
        (2211840, 2200),
        (3686400, 3000),
        (4953600, 4000),
        (8294400, 5000),
        (33177600, 12000),
    ];
    proof {
        assert(presets@ =~= spec_bitrate_presets());
    }
    proof {
        assert((width as int) * (height as int) <= 0xffffffff * 0xffffffff) by (nonlinear_arith)
            requires
                width <= 0xffffffff,
                height <= 0xffffffff,
        ;
    }
    let pixels64: u64 = (width as u64) * (height as u64);
    let pixels: u32 = if pixels64 > 0xffffffff {
        0xffffffff
    } else {
        pixels64 as u32
    };
    let n = presets.len();
    let mut i = n - 1;
    let mut best: (u32, u32) = presets[n - 1];
    while i > 0
        invariant
            i <= n - 1,
            n == spec_bitrate_presets().len(),
            presets@ == spec_bitrate_presets(),
            best == spec_nearest_preset_from(pixels, i as int),
        decreases i,
    {
        i = i - 1;
        let cur = presets[i];
        let cur_dist: u32 = if cur.0 >= pixels {
            cur.0 - pixels
        } else {
            pixels - cur.0
        };
        let best_dist: u32 = if best.0 >= pixels {
            best.0 - pixels
        } else {
            pixels - best.0
        };
        if cur_dist <= best_dist {
            best = cur;
        }
    }
    proof {
        lemma_presets_positive(pixels, i as int);
        assert(best.0 >= 1 && best.1 <= 12000);
        assert((best.1 as int) * (pixels as int) <= 12000 * 0xffffffff) by (nonlinear_arith)
            requires
                best.1 <= 12000,
                pixels <= 0xffffffff,
        ;
    }
    let scaled64: u64 = ((best.1 as u64) * (pixels as u64) + (best.0 as u64) / 2) / (best.0
        as u64);
    if scaled64 > 0xffffffff {
        0xffffffff
    } else {
        scaled64 as u32
    }
}

/// Every preset has a positive pixel count and a bitrate of at most
/// 12000 kbps.
proof fn lemma_presets_positive(pixels: u32, i: int)
    ensures
        spec_nearest_preset_from(pixels, i).0 >= 1,
        spec_nearest_preset_from(pixels, i).1 <= 12000,
    decreases spec_bitrate_presets().len() - i,
{
    let presets = spec_bitrate_presets();
    if !(i < 0 || i >= presets.len() - 1) {
        lemma_presets_positive(pixels, i + 1);
    }
}

// ---------------------------------------------------------------------------
// Codec worker threads
// ---------------------------------------------------------------------------
/// Relies on num_cpus::get: the number of logical CPUs available to the
/// process, which its platform implementations clamp to at least one.
#[verifier::external_body]
fn available_cpus() -> (r: usize)
    ensures
        r >= 1,
{
    num_cpus::get()
}

/// The number of worker threads for the codec: stepped down from the CPU
/// count and bounded by the caller's limit, but always at least one.
pub fn codec_thread_num(limit: usize) -> (r: usize)
    ensures
        1 <= r <= 8,
        r <= if limit >= 1 {
            limit
        } else {
            1
        },
{
    let cpu_count = available_cpus();
    let mut threads: usize = if cpu_count >= 16 {
        8
    } else if cpu_count >= 8 {
        4
    } else if cpu_count >= 4 {
        2
    } else {
        1
    };
    let floor_limit = if limit >= 1 {
        limit
    } else {
        1
    };
    if threads > floor_limit {
        threads = floor_limit;
    }
    if threads < 1 {
        threads = 1;
    }
    threads
}

// ---------------------------------------------------------------------------
// The YUV working buffer
// ---------------------------------------------------------------------------
/// The working buffer of the BGRA-to-I420 conversion: a Y plane primed to
/// black (16) followed by U and V planes primed to neutral chroma (128),
/// padded to a 64-byte boundary.
pub struct YuvConverter {
    /// Width in pixels.
    pub width: usize,
    /// Height in pixels.
    pub height: usize,
    /// The plane bytes.
    pub yuv_buffer: Vec<u8>,
}

impl YuvConverter {
    /// Build the working buffer for a resolution. Fails exactly when a
    /// dimension is zero.
    pub fn new(width: usize, height: usize) -> (r: Result<Self, ()>)
        requires
            width <= 4096,
            height <= 4096,
        ensures
            r is Ok <==> width > 0 && height > 0,
            r is Ok ==> {
                let c = r->Ok_0;
                let y_size = width * height;
                let uv_size = (width / 2) * (height / 2);
                &&& c.width == width
                &&& c.height == height
                &&& c.yuv_buffer@.len() == ((y_size + 2 * uv_size + 63) / 64) * 64
                &&& forall|k: int| 0 <= k < y_size ==> c.yuv_buffer@[k] == 16u8
                &&& forall|k: int|
                    y_size <= k < y_size + 2 * uv_size ==> c.yuv_buffer@[k] == 128u8
            },
    {
        if width == 0 || height == 0 {
            return Err(());
        }
        proof {
            assert(width * height <= 4096 * 4096 && (width / 2) * (height / 2) <= 2048 * 2048)
                by (nonlinear_arith)
                requires
                    width <= 4096,
                    height <= 4096,
            ;
        }
        let y_size = width * height;
        let uv_size = (width / 2) * (height / 2);
        let yuv_size = y_size + uv_size * 2;
        let aligned_buffer_size = ((yuv_size + 63) / 64) * 64;
        let mut yuv_buffer: Vec<u8> = vec![16u8; y_size];
        let mut chroma: Vec<u8> = vec![128u8; uv_size * 2];
        yuv_buffer.append(&mut chroma);
        let padding_len = aligned_buffer_size - yuv_size;
        let mut padding: Vec<u8> = vec![0u8; padding_len];
        yuv_buffer.append(&mut padding);
        Ok(YuvConverter { width, height, yuv_buffer })
    }
}

// ---------------------------------------------------------------------------
// Conversion validation
// ---------------------------------------------------------------------------
/// The failures of pixel-format conversion validation.
#[derive(Debug, Clone, Copy, PartialEq, Eq, Structural)]
pub enum ConvertError {
    /// The source rectangle exceeds the destination rectangle.
    SourceLargerThanTarget,
    /// The claimed source stride is narrower than a row of pixels.
    StrideTooSmall,
    /// The source buffer does not cover all claimed rows.
    SourceTooShort,
    /// The source and destination formats have no conversion.
    Unsupported,
}

/// Bytes per pixel of a format, rounded up.
pub open spec fn spec_bytes_per_pixel(p: Pixfmt) -> int {
    match p {
        Pixfmt::BGRA | Pixfmt::RGBA => 4,
        Pixfmt::RGB565LE => 2,
        Pixfmt::I420 | Pixfmt::NV12 => 2,
        Pixfmt::I444 => 3,
    }
}

/// Whether a source format is one of the packed RGB forms whose buffers
/// are checked row by row.
pub open spec fn spec_is_packed_rgb(p: Pixfmt) -> bool {
    p == Pixfmt::BGRA || p == Pixfmt::RGBA || p == Pixfmt::RGB565LE
}

/// Whether a conversion between two formats exists: from a packed RGB
/// form to one of the planar YUV forms.
pub open spec fn spec_conversion_supported(src: Pixfmt, dst: Pixfmt) -> bool {
    spec_is_packed_rgb(src) && (dst == Pixfmt::I420 || dst == Pixfmt::NV12 || dst
        == Pixfmt::I444)
}

/// Validate one pixel-format conversion before the converter runs: the
/// source must fit the destination rectangle, a packed RGB source must
/// have a wide-enough stride and a buffer covering all rows, and the
/// format pair must have a conversion. Each failure reports its own
/// error, checked in this order.
pub fn validate_yuv_conversion(
    src_len: usize,
    src_stride: usize,
    src_pixfmt: Pixfmt,
    src_width: usize,
    src_height: usize,
    dst_fmt: &EncodeYuvFormat,
) -> (r: Result<(), ConvertError>)
    requires
        src_width <= 0xffff,
        src_height <= 0xffff,
        src_stride <= 0xffffff,
    ensures
        r == (if src_width > dst_fmt.w || src_height > dst_fmt.h {
            Err::<(), ConvertError>(ConvertError::SourceLargerThanTarget)
        } else if spec_is_packed_rgb(src_pixfmt) && src_stride < src_width * spec_bytes_per_pixel(
            src_pixfmt,
        ) {
            Err::<(), ConvertError>(ConvertError::StrideTooSmall)
        } else if spec_is_packed_rgb(src_pixfmt) && src_len < src_stride * src_height {
            Err::<(), ConvertError>(ConvertError::SourceTooShort)
        } else if !spec_conversion_supported(src_pixfmt, dst_fmt.pixfmt) {
            Err::<(), ConvertError>(ConvertError::Unsupported)
        } else {
            Ok::<(), ConvertError>(())
        }),
{
    if src_width > dst_fmt.w || src_height > dst_fmt.h {
        return Err(ConvertError::SourceLargerThanTarget);
    }
    let packed = match src_pixfmt {
        Pixfmt::BGRA | Pixfmt::RGBA | Pixfmt::RGB565LE => true,
        _ => false,
    };
    if packed {
        let bpp = src_pixfmt.bytes_per_pixel();
        proof {
            assert((src_width as int) * (bpp as int) <= 0xffff * 4) by (nonlinear_arith)
                requires
                    src_width <= 0xffff,
                    bpp <= 4,
            ;
        }
        let row_bytes: u64 = (src_width as u64) * (bpp as u64);
        if (src_stride as u64) < row_bytes {
            return Err(ConvertError::StrideTooSmall);
        }
        proof {
            assert((src_stride as int) * (src_height as int) <= 0xffffff * 0xffff)
                by (nonlinear_arith)
                requires
                    src_stride <= 0xffffff,
                    src_height <= 0xffff,
            ;
        }
        let needed: u64 = (src_stride as u64) * (src_height as u64);
        if (src_len as u64) < needed {
            return Err(ConvertError::SourceTooShort);
        }
    }
    let supported = packed && match dst_fmt.pixfmt {
        Pixfmt::I420 | Pixfmt::NV12 | Pixfmt::I444 => true,
        _ => false,
    };
    if !supported {
        return Err(ConvertError::Unsupported);
    }
    Ok(())
}

} // verus!

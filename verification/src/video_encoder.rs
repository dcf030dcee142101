//! H.264 encoder settings, encoded frames, and the key-frame schedule.
use vstd::prelude::*;

use openh264::encoder::Encoder;
use openh264::formats::YUVBuffer;
use yuv::{
    rgba_to_yuv420, YuvChromaSubsampling, YuvConversionMode, YuvError, YuvPlanarImageMut, YuvRange,
    YuvStandardMatrix,
};

use crate::annexb::{is_keyframe, is_keyframe_spec};

verus! {

/// Network quality levels that select stream settings.
#[derive(Debug, Clone, Copy, PartialEq, Eq, Structural)]
pub enum NetworkQuality {
    /// More than 10 Mbps, round trip under 50 ms.
    Excellent,
    /// 1 to 10 Mbps, round trip under 200 ms.
    Good,
    /// Under 1 Mbps, round trip over 200 ms.
    Poor,
}

/// Video codec identifiers.
#[derive(Debug, Clone, Copy, PartialEq, Eq, Structural)]
pub enum VideoCodec {
    VP8,
}

/// Bit pattern of the `f32` frame rate 10.0.
pub const FPS_10_BITS: u32 = 0x4120_0000;

/// Bit pattern of the `f32` frame rate 15.0.
pub const FPS_15_BITS: u32 = 0x4170_0000;

/// Bit pattern of the `f32` frame rate 30.0.
pub const FPS_30_BITS: u32 = 0x41f0_0000;

/// Bit pattern of the `f32` frame rate 60.0.
pub const FPS_60_BITS: u32 = 0x4270_0000;

/// Encoder settings. The frame rate is the bit pattern of an `f32`
/// (`f32::to_bits`); `quality` runs from 0 to 100.
#[derive(Debug, Clone, Copy, PartialEq, Eq, Structural)]
pub struct VideoEncoderConfig {
    pub width: u32,
    pub height: u32,
    pub fps_bits: u32,
    pub bitrate: u32,
    pub codec: VideoCodec,
    pub quality: u8,
}

/// The `f32` with bit pattern `a` is a NaN: all exponent bits set and a
/// non-zero fraction.
pub open spec fn f32_bits_nan(a: u32) -> bool {
    a & 0x7f80_0000 == 0x7f80_0000 && a & 0x007f_ffff != 0
}

/// The `f32` values with bit patterns `a` and `b` compare equal with `==`:
/// neither is a NaN, and the patterns agree or both are zeros of either sign.
pub open spec fn f32_bits_eq(a: u32, b: u32) -> bool {
    &&& !f32_bits_nan(a)
    &&& !f32_bits_nan(b)
    &&& (a == b || (a & 0x7fff_ffff == 0 && b & 0x7fff_ffff == 0))
}

/// Compares two frame rates, given as `f32` bit patterns, as floats.
pub fn fps_equal(a: u32, b: u32) -> (r: bool)
    ensures
        r == f32_bits_eq(a, b),
{
    let a_nan = a & 0x7f80_0000 == 0x7f80_0000 && a & 0x007f_ffff != 0;
    let b_nan = b & 0x7f80_0000 == 0x7f80_0000 && b & 0x007f_ffff != 0;
    !a_nan && !b_nan && (a == b || (a & 0x7fff_ffff == 0 && b & 0x7fff_ffff == 0))
}

/// Settings that compare equal field by field, the frame rate as a float.
pub open spec fn config_eq_spec(a: VideoEncoderConfig, b: VideoEncoderConfig) -> bool {
    &&& a.width == b.width
    &&& a.height == b.height
    &&& f32_bits_eq(a.fps_bits, b.fps_bits)
    &&& a.bitrate == b.bitrate
    &&& a.codec == b.codec
    &&& a.quality == b.quality
}

/// Compares settings field by field, the frame rate as a float.
pub fn config_eq(a: &VideoEncoderConfig, b: &VideoEncoderConfig) -> (r: bool)
    ensures
        r == config_eq_spec(*a, *b),
{
    a.width == b.width && a.height == b.height && fps_equal(a.fps_bits, b.fps_bits) && a.bitrate
        == b.bitrate && a.codec == b.codec && a.quality == b.quality
}

/// Settings compare equal only when every field is equal: two settings that
/// differ in width, height, bitrate, codec or quality compare unequal, and so
/// do two whose frame rates are different numbers (only +0 and -0 are equal
/// in different bit patterns) or where one frame rate is not a number.
/// Identical settings whose frame rate is a number compare equal, and the
/// comparison is symmetric.
pub proof fn law_config_eq_fields(a: VideoEncoderConfig, b: VideoEncoderConfig)
    ensures
        config_eq_spec(a, b) ==> a.width == b.width && a.height == b.height && a.bitrate == b.bitrate
            && a.codec == b.codec && a.quality == b.quality,
        config_eq_spec(a, b) ==> a.fps_bits == b.fps_bits || (a.fps_bits & 0x7fff_ffff == 0 && b.fps_bits
            & 0x7fff_ffff == 0),
        (a.fps_bits & 0x7f80_0000 == 0x7f80_0000 && a.fps_bits & 0x007f_ffff != 0) ==> !config_eq_spec(a, b),
        a == b && !(a.fps_bits & 0x7f80_0000 == 0x7f80_0000 && a.fps_bits & 0x007f_ffff != 0) ==> config_eq_spec(
            a,
            b,
        ),
        config_eq_spec(a, b) == config_eq_spec(b, a),
{
}

impl Default for VideoEncoderConfig {
    /// 1920x1080 at 30 fps, 2 Mbps, quality 75.
    fn default() -> (r: Self)
        ensures
            r == (VideoEncoderConfig {
                width: 1920,
                height: 1080,
                fps_bits: FPS_30_BITS,
                bitrate: 2_000_000,
                codec: VideoCodec::VP8,
                quality: 75,
            }),
    {
        VideoEncoderConfig {
            width: 1920,
            height: 1080,
            fps_bits: FPS_30_BITS,
            bitrate: 2_000_000,
            codec: VideoCodec::VP8,
            quality: 75,
        }
    }
}

/// One encoded frame.
#[derive(Debug, Clone)]
pub struct EncodedFrame {
    pub data: Vec<u8>,
    pub is_keyframe: bool,
}

/// Why a frame could not be encoded.
#[derive(Debug, Clone, Copy, PartialEq, Eq, Structural)]
pub enum EncodeError {
    /// The RGBA to YUV 4:2:0 conversion refused the image.
    Conversion,
    /// The H.264 encoder reported an error.
    Encoder,
}

/// A key frame is forced when more than this many frames passed since the last one.
pub const KEYFRAME_INTERVAL: u64 = 30;

/// When the encoder forces key frames: frames are counted from one; the frame
/// after a request, and the frame after more than thirty frames without a
/// key frame, is encoded as an IDR.
#[derive(Debug, Clone, Copy, PartialEq, Eq, Structural)]
pub struct KeyframeSchedule {
    pub frame_count: u64,
    pub last_keyframe: u64,
    pub next_force_keyframe: bool,
}

impl KeyframeSchedule {
    /// The last key frame is never later than the current frame.
    pub open spec fn wf(self) -> bool {
        self.last_keyframe <= self.frame_count
    }

    /// The schedule after a request for a key frame.
    pub open spec fn requested(self) -> KeyframeSchedule {
        KeyframeSchedule { next_force_keyframe: true, ..self }
    }

    /// The schedule once a frame begins: counted, with any pending request
    /// taken (the second component says whether one was).
    pub open spec fn begun(self) -> (KeyframeSchedule, bool) {
        (
            KeyframeSchedule {
                frame_count: (self.frame_count + 1) as u64,
                next_force_keyframe: false,
                ..self
            },
            self.next_force_keyframe,
        )
    }

    /// The schedule once the current frame came out of the encoder: a key
    /// frame is remembered, and a request is raised when more than thirty
    /// frames passed since the last key frame.
    pub open spec fn ended(self, keyframe: bool) -> KeyframeSchedule {
        let last = if keyframe {
            self.frame_count
        } else {
            self.last_keyframe
        };
        KeyframeSchedule {
            frame_count: self.frame_count,
            last_keyframe: last,
            next_force_keyframe: self.next_force_keyframe || self.frame_count - last
                > KEYFRAME_INTERVAL,
        }
    }

    /// A schedule whose first frame is forced.
    pub fn new() -> (r: Self)
        ensures
            r == (KeyframeSchedule { frame_count: 0, last_keyframe: 0, next_force_keyframe: true }),
            r.wf(),
    {
        KeyframeSchedule { frame_count: 0, last_keyframe: 0, next_force_keyframe: true }
    }

    /// Counts a new frame.
    pub fn count_frame(&mut self)
        requires
            old(self).frame_count < u64::MAX,
        ensures
            *final(self) == (KeyframeSchedule {
                frame_count: (old(self).frame_count + 1) as u64,
                ..*old(self)
            }),
    {
        self.frame_count = self.frame_count + 1;
    }

    /// Takes the pending key-frame request: returns it and clears it.
    pub fn take_request(&mut self) -> (forced: bool)
        ensures
            forced == old(self).next_force_keyframe,
            *final(self) == (KeyframeSchedule { next_force_keyframe: false, ..*old(self) }),
    {
        let forced = self.next_force_keyframe;
        self.next_force_keyframe = false;
        forced
    }

    /// Records the outcome of the current frame (see `ended`).
    pub fn end_frame(&mut self, keyframe: bool)
        requires
            old(self).wf(),
        ensures
            *final(self) == old(self).ended(keyframe),
            final(self).wf(),
    {
        if keyframe {
            self.last_keyframe = self.frame_count;
        }
        if self.frame_count - self.last_keyframe > KEYFRAME_INTERVAL {
            self.next_force_keyframe = true;
        }
    }

    /// Asks for the next frame to be a key frame.
    pub fn request_keyframe(&mut self)
        ensures
            *final(self) == old(self).requested(),
    {
        self.next_force_keyframe = true;
    }
}

/// A request for a key frame makes the next frame begin forced.
pub proof fn law_request_forces_next(s: KeyframeSchedule)
    ensures
        s.requested().begun().1,
{
}

/// A key frame restarts the interval: the frame that produced it raises no
/// request of its own, and a schedule stays well formed through frames.
pub proof fn law_keyframe_restarts_interval(s: KeyframeSchedule)
    requires
        s.wf(),
        !s.next_force_keyframe,
    ensures
        !s.ended(true).next_force_keyframe,
        s.ended(true).last_keyframe == s.frame_count,
        s.ended(false).wf(),
{
}

/// Without key frames, a request is raised by the thirty-first frame after
/// the last key frame at the latest.
pub proof fn law_interval_bounded(s: KeyframeSchedule)
    requires
        s.wf(),
        s.frame_count - s.last_keyframe > KEYFRAME_INTERVAL,
    ensures
        s.ended(false).next_force_keyframe,
{
}

/// Whether `yuv`'s `rgba_to_yuv420` refuses an RGBA image of `len` bytes with
/// the given size and row stride (in bytes): a side of zero, a byte count
/// `width * height * 4` beyond `isize::MAX`, a buffer shorter than
/// `stride * (height - 1) + width * 4`, or a stride shorter than a row.
pub open spec fn yuv_refused(len: int, width: u32, height: u32, stride: u32) -> bool {
    ||| width == 0
    ||| height == 0
    ||| width * height * 4 > isize::MAX
    ||| len < stride * (height - 1) + width * 4
    ||| stride < width * 4
}

/// Planes in the shape of an I420 picture of the given size: `width * height`
/// luma bytes and `ceil(width / 2) * ceil(height / 2)` bytes for each chroma
/// plane.
pub open spec fn planes_shaped(p: (Seq<u8>, Seq<u8>, Seq<u8>), width: u32, height: u32) -> bool {
    &&& p.0.len() == width * height
    &&& p.1.len() == div_ceil2(width as int) * div_ceil2(height as int)
    &&& p.2.len() == div_ceil2(width as int) * div_ceil2(height as int)
}

pub open spec fn div_ceil2(v: int) -> int {
    (v + 1) / 2
}

#[verifier::external_type_specification]
#[verifier::external_body]
pub struct ExYuvError(YuvError);

#[verifier::external_type_specification]
#[verifier::external_body]
pub struct ExH264Error(openh264::Error);

#[verifier::external_type_specification]
#[verifier::external_body]
pub struct ExEncoder(Encoder);

/// Converts RGBA to planar YUV 4:2:0 with `YuvPlanarImageMut::alloc` and
/// `rgba_to_yuv420` (limited range, BT.709), and hands back the three planes.
/// Trusted: it fails exactly when `yuv_refused` holds (the checks of
/// `check_rgba_destination`; the planes as allocated pass their own checks),
/// and the planes have the allocated sizes. Their bytes are left unsaid: the
/// crate picks its row kernel for the CPU at run time, and the kernels round
/// differently.
#[verifier::external_body]
fn convert_rgba_to_yuv420(rgba: &[u8], width: u32, height: u32, stride: u32) -> (r: Result<
    (Vec<u8>, Vec<u8>, Vec<u8>),
    YuvError,
>)
    requires
        4 * (width * height) <= usize::MAX,
        stride * height + 4 * width <= usize::MAX,
    ensures
        match r {
            Ok(p) => !yuv_refused(rgba@.len() as int, width, height, stride) && planes_shaped(
                (p.0@, p.1@, p.2@),
                width,
                height,
            ),
            Err(_) => yuv_refused(rgba@.len() as int, width, height, stride),
        },
{
    let mut planar = YuvPlanarImageMut::<u8>::alloc(width, height, YuvChromaSubsampling::Yuv420);
    rgba_to_yuv420(
        &mut planar,
        rgba,
        stride,
        YuvRange::Limited,
        YuvStandardMatrix::Bt709,
        YuvConversionMode::Balanced,
    )?;
    Ok((planar.y_plane.borrow().to_vec(), planar.u_plane.borrow().to_vec(), planar.v_plane.borrow().to_vec()))
}

/// Asks the OpenH264 encoder for an IDR frame next, with `force_intra_frame`.
#[verifier::external_body]
fn force_intra_frame(encoder: &mut Encoder) {
    encoder.force_intra_frame();
}

/// Encodes an I420 picture with `YUVBuffer::from_vec` and `Encoder::encode`,
/// and copies out the bitstream with `to_vec`.
/// Trusted: nothing is stated of the bytes, which depend on the encoder's
/// state. `YUVBuffer::from_vec` panics unless both sides are even and the
/// buffer holds `3 * width * height / 2` bytes, which `requires` demands.
#[verifier::external_body]
fn encode_i420(encoder: &mut Encoder, yuv: Vec<u8>, width: usize, height: usize) -> (r: Result<
    Vec<u8>,
    openh264::Error,
>)
    requires
        width % 2 == 0,
        height % 2 == 0,
        yuv@.len() == (3 * (width * height)) / 2,
{
    let buffer = YUVBuffer::from_vec(yuv, width, height);
    let bitstream = encoder.encode(&buffer)?;
    Ok(bitstream.to_vec())
}

/// An encoded frame from encoder output: whether it is a key frame follows
/// from its NAL units, and the schedule records it (see
/// `KeyframeSchedule::ended`).
pub fn complete_frame(schedule: &mut KeyframeSchedule, frame_data: Vec<u8>) -> (r: EncodedFrame)
    requires
        old(schedule).wf(),
    ensures
        r.data@ == frame_data@,
        r.is_keyframe == is_keyframe_spec(frame_data@),
        *final(schedule) == old(schedule).ended(r.is_keyframe),
{
    let keyframe = is_keyframe(&frame_data);
    schedule.end_frame(keyframe);
    EncodedFrame { data: frame_data, is_keyframe: keyframe }
}

/// Row stride, in bytes, of an RGBA image `width` pixels wide, as the encoder
/// passes it to the converter: `width * 4` truncated to 32 bits.
pub open spec fn rgba_stride(width: u32) -> u32 {
    ((width * 4) % 0x1_0000_0000) as u32
}

/// An encode of `rgba` by an encoder with settings `cfg` and schedule `s` that
/// gave the frame `f` and left the schedule `after`: the image converted, the
/// key-frame flag is what the bytes show, and the frame was begun and ended.
pub open spec fn encode_succeeded(
    rgba: Seq<u8>,
    cfg: VideoEncoderConfig,
    s: KeyframeSchedule,
    f: EncodedFrame,
    after: KeyframeSchedule,
) -> bool {
    &&& !yuv_refused(rgba.len() as int, cfg.width, cfg.height, rgba_stride(cfg.width))
    &&& f.is_keyframe == is_keyframe_spec(f.data@)
    &&& after == s.begun().0.ended(f.is_keyframe)
}

/// The same encode that failed with `e`: an image the conversion refuses
/// fails with `Conversion`, the frame only counted; otherwise the encoder
/// failed (`Encoder`) once the frame was begun.
pub open spec fn encode_failed(
    rgba: Seq<u8>,
    cfg: VideoEncoderConfig,
    s: KeyframeSchedule,
    e: EncodeError,
    after: KeyframeSchedule,
) -> bool {
    if yuv_refused(rgba.len() as int, cfg.width, cfg.height, rgba_stride(cfg.width)) {
        e == EncodeError::Conversion && after == (KeyframeSchedule {
            frame_count: (s.frame_count + 1) as u64,
            ..s
        })
    } else {
        e == EncodeError::Encoder && after == s.begun().0
    }
}

/// What an encode of `rgba` by an encoder with settings `cfg` and schedule
/// `s` returns, `after` being the schedule it leaves.
pub open spec fn encode_outcome(
    rgba: Seq<u8>,
    cfg: VideoEncoderConfig,
    s: KeyframeSchedule,
    r: Result<EncodedFrame, EncodeError>,
    after: KeyframeSchedule,
) -> bool {
    match r {
        Ok(f) => encode_succeeded(rgba, cfg, s, f, after),
        Err(e) => encode_failed(rgba, cfg, s, e, after),
    }
}

/// For even sides, the two chroma planes together with the luma plane make
/// one and a half times the pixel count.
proof fn lemma_even_quarters(w: int, h: int)
    requires
        w % 2 == 0,
        h % 2 == 0,
        w >= 0,
        h >= 0,
    ensures
        div_ceil2(w) * div_ceil2(h) * 4 == w * h,
{
    let a = w / 2;
    let b = h / 2;
    assert(div_ceil2(w) == a);
    assert(div_ceil2(h) == b);
    assert(a * b * 4 == (2 * a) * (2 * b)) by (nonlinear_arith);
}

/// An H.264 encoder (OpenH264) with its settings and key-frame schedule. In
/// the proofs it also keeps the history of its inputs: every plane triple the
/// converter produced for it, and every I420 buffer handed to OpenH264 with
/// whether an IDR was requested just before.
pub struct H264VideoEncoder {
    encoder: Encoder,
    config: VideoEncoderConfig,
    schedule: KeyframeSchedule,
    converted: Ghost<Seq<(Seq<u8>, Seq<u8>, Seq<u8>)>>,
    fed: Ghost<Seq<(Seq<u8>, bool)>>,
}

/// How encoding `rgba` moves an encoder's input history from `before` to
/// `after`: an image the converter refuses leaves it as it was; otherwise one
/// plane triple in I420 shape was produced, and its Y, U and V planes, one
/// after another, were handed to OpenH264, after an IDR request when
/// `forced`.
pub open spec fn frame_fed(before: H264VideoEncoder, after: H264VideoEncoder, rgba: Seq<u8>, forced: bool) -> bool {
    let cfg = before.config();
    if yuv_refused(rgba.len() as int, cfg.width, cfg.height, rgba_stride(cfg.width)) {
        after.converted() == before.converted() && after.fed() == before.fed()
    } else {
        let p = after.converted().last();
        &&& after.converted().len() == before.converted().len() + 1
        &&& after.converted().drop_last() == before.converted()
        &&& planes_shaped(p, cfg.width, cfg.height)
        &&& after.fed() == before.fed().push((p.0 + p.1 + p.2, forced))
    }
}

/// What an encoder needs before it encodes: a well-formed schedule, even
/// sides, and a size whose RGBA and I420 byte counts fit in `usize`.
pub open spec fn encode_ready(e: H264VideoEncoder) -> bool {
    &&& e.schedule().wf()
    &&& e.config().width % 2 == 0
    &&& e.config().height % 2 == 0
    &&& 4 * (e.config().width * (e.config().height + 1)) <= usize::MAX
}

impl H264VideoEncoder {
    /// Wraps an OpenH264 encoder built for `config`; its first frame is forced
    /// to be a key frame.
    pub fn new(config: VideoEncoderConfig, encoder: Encoder) -> (r: Self)
        ensures
            r.config() == config,
            r.schedule() == (KeyframeSchedule { frame_count: 0, last_keyframe: 0, next_force_keyframe: true }),
            r.converted() == Seq::<(Seq<u8>, Seq<u8>, Seq<u8>)>::empty(),
            r.fed() == Seq::<(Seq<u8>, bool)>::empty(),
    {
        H264VideoEncoder {
            encoder,
            config,
            schedule: KeyframeSchedule::new(),
            converted: Ghost(Seq::empty()),
            fed: Ghost(Seq::empty()),
        }
    }

    pub closed spec fn config(&self) -> VideoEncoderConfig {
        self.config
    }

    pub closed spec fn schedule(&self) -> KeyframeSchedule {
        self.schedule
    }

    /// The plane triples the converter produced for this encoder, in order.
    pub closed spec fn converted(&self) -> Seq<(Seq<u8>, Seq<u8>, Seq<u8>)> {
        self.converted@
    }

    /// The I420 buffers handed to OpenH264, in order, each with whether an
    /// IDR was requested just before it.
    pub closed spec fn fed(&self) -> Seq<(Seq<u8>, bool)> {
        self.fed@
    }

    /// The encoder's settings.
    pub fn get_config(&self) -> (r: &VideoEncoderConfig)
        ensures
            *r == self.config(),
    {
        &self.config
    }

    /// The encoder's key-frame schedule.
    pub fn get_schedule(&self) -> (r: KeyframeSchedule)
        ensures
            r == self.schedule(),
    {
        self.schedule
    }

    /// Asks for the next frame to be a key frame.
    pub fn request_keyframe(&mut self)
        ensures
            final(self).config() == old(self).config(),
            final(self).schedule() == old(self).schedule().requested(),
            final(self).converted() == old(self).converted(),
            final(self).fed() == old(self).fed(),
    {
        self.schedule.request_keyframe();
    }

    /// Converts the frame with the configured size and stride, and records the
    /// planes produced.
    fn convert(&mut self, rgba_data: &[u8], stride: u32) -> (r: Result<(Vec<u8>, Vec<u8>, Vec<u8>), YuvError>)
        requires
            4 * (old(self).config().width * old(self).config().height) <= usize::MAX,
            stride * old(self).config().height + 4 * old(self).config().width <= usize::MAX,
        ensures
            final(self).config() == old(self).config(),
            final(self).schedule() == old(self).schedule(),
            final(self).fed() == old(self).fed(),
            match r {
                Ok(p) => {
                    &&& !yuv_refused(rgba_data@.len() as int, old(self).config().width, old(self).config().height, stride)
                    &&& planes_shaped((p.0@, p.1@, p.2@), old(self).config().width, old(self).config().height)
                    &&& final(self).converted() == old(self).converted().push((p.0@, p.1@, p.2@))
                },
                Err(_) => yuv_refused(rgba_data@.len() as int, old(self).config().width, old(self).config().height, stride)
                    && final(self).converted() == old(self).converted(),
            },
    {
        let r = convert_rgba_to_yuv420(rgba_data, self.config.width, self.config.height, stride);
        if let Ok(p) = &r {
            self.converted = Ghost(self.converted@.push((p.0@, p.1@, p.2@)));
        }
        r
    }

    /// Hands an I420 buffer to OpenH264, after asking it for an IDR when
    /// `forced`, and records both.
    fn feed(&mut self, yuv: Vec<u8>, forced: bool) -> (r: Result<Vec<u8>, openh264::Error>)
        requires
            old(self).config().width % 2 == 0,
            old(self).config().height % 2 == 0,
            yuv@.len() == (3 * (old(self).config().width * old(self).config().height)) / 2,
            old(self).config().width * old(self).config().height <= usize::MAX,
        ensures
            final(self).config() == old(self).config(),
            final(self).schedule() == old(self).schedule(),
            final(self).converted() == old(self).converted(),
            final(self).fed() == old(self).fed().push((yuv@, forced)),
    {
        self.fed = Ghost(self.fed@.push((yuv@, forced)));
        if forced {
            force_intra_frame(&mut self.encoder);
        }
        encode_i420(&mut self.encoder, yuv, self.config.width as usize, self.config.height as usize)
    }

    /// Encodes the converted planes of the current frame (already counted): a
    /// pending key-frame request is taken and handed to OpenH264 together with
    /// the I420 buffer, Y, then U, then V; the encoder's output (failure:
    /// `Encoder`) becomes the frame, as `complete_frame` says.
    pub fn encode_planes(&mut self, y_plane: Vec<u8>, u_plane: Vec<u8>, v_plane: Vec<u8>) -> (r: Result<
        EncodedFrame,
        EncodeError,
    >)
        requires
            encode_ready(*old(self)),
            planes_shaped((y_plane@, u_plane@, v_plane@), old(self).config().width, old(self).config().height),
        ensures
            final(self).config() == old(self).config(),
            final(self).converted() == old(self).converted(),
            final(self).fed() == old(self).fed().push(
                (y_plane@ + u_plane@ + v_plane@, old(self).schedule().next_force_keyframe),
            ),
            final(self).schedule().wf(),
            ({
                let taken = KeyframeSchedule { next_force_keyframe: false, ..old(self).schedule() };
                match r {
                    Ok(f) => f.is_keyframe == is_keyframe_spec(f.data@) && final(self).schedule() == taken.ended(
                        f.is_keyframe,
                    ),
                    Err(e) => e == EncodeError::Encoder && final(self).schedule() == taken,
                }
            }),
    {
        let width = self.config.width;
        let height = self.config.height;
        let mut yuv_vec = y_plane;
        let mut u = u_plane;
        let mut v = v_plane;
        proof {
            let w = width as int;
            let h = height as int;
            lemma_even_quarters(w, h);
            assert(w * h <= w * (h + 1)) by (nonlinear_arith)
                requires
                    w >= 0,
                    h >= 0,
            ;
        }
        let ghost (y0, u0, v0) = (yuv_vec@, u@, v@);
        yuv_vec.append(&mut u);
        yuv_vec.append(&mut v);
        assert(yuv_vec@ == y0 + u0 + v0);
        let forced = self.schedule.take_request();
        match self.feed(yuv_vec, forced) {
            Err(_) => Err(EncodeError::Encoder),
            Ok(frame_data) => Ok(complete_frame(&mut self.schedule, frame_data)),
        }
    }

    /// Encodes an RGBA frame of the configured size as H.264. The frame is
    /// counted; it is converted to I420 (failure: `Conversion`, the schedule
    /// otherwise unchanged); then `encode_planes` encodes the planes.
    pub fn encode_frame_sync(&mut self, rgba_data: &[u8], _timestamp: u64) -> (r: Result<EncodedFrame, EncodeError>)
        requires
            encode_ready(*old(self)),
            old(self).schedule().frame_count < u64::MAX,
        ensures
            final(self).config() == old(self).config(),
            final(self).schedule().wf(),
            encode_outcome(rgba_data@, old(self).config(), old(self).schedule(), r, final(self).schedule()),
            frame_fed(*old(self), *final(self), rgba_data@, old(self).schedule().next_force_keyframe),
    {
        self.schedule.count_frame();
        let width = self.config.width;
        let height = self.config.height;
        let stride = ((width as u64) * 4) as u32;
        assert(stride == rgba_stride(width)) by (bit_vector)
            requires
                stride == ((width as u64) * 4) as u32,
        ;
        proof {
            let w = width as int;
            let h = height as int;
            assert(stride <= 4 * width) by (bit_vector)
                requires
                    stride == ((width as u64) * 4) as u32,
            ;
            let st = stride as int;
            assert(st * h + 4 * w <= 4 * (w * (h + 1))) by (nonlinear_arith)
                requires
                    st <= 4 * w,
                    0 <= st,
                    0 <= h,
                    0 <= w,
            ;
            assert(4 * (w * h) <= 4 * (w * (h + 1))) by (nonlinear_arith)
                requires
                    0 <= h,
                    0 <= w,
            ;
        }
        match self.convert(rgba_data, stride) {
            Err(_) => Err(EncodeError::Conversion),
            Ok(planes) => {
                let (y_plane, u_plane, v_plane) = planes;
                let r = self.encode_planes(y_plane, u_plane, v_plane);
                assert(self.converted().drop_last() == old(self).converted());
                r
            },
        }
    }
}

/// Encoder presets for network conditions.
pub struct VideoEncoderFactory;

impl VideoEncoderFactory {
    /// High quality, for fast networks: 60 fps, 8 Mbps, quality 90.
    pub fn high_quality_config(width: u32, height: u32) -> (r: VideoEncoderConfig)
        ensures
            r == (VideoEncoderConfig {
                width,
                height,
                fps_bits: FPS_60_BITS,
                bitrate: 8_000_000,
                codec: VideoCodec::VP8,
                quality: 90,
            }),
    {
        VideoEncoderConfig {
            width,
            height,
            fps_bits: FPS_60_BITS,
            bitrate: 8_000_000,
            codec: VideoCodec::VP8,
            quality: 90,
        }
    }

    /// Standard quality: 30 fps, 2 Mbps, quality 75.
    pub fn standard_quality_config(width: u32, height: u32) -> (r: VideoEncoderConfig)
        ensures
            r == (VideoEncoderConfig {
                width,
                height,
                fps_bits: FPS_30_BITS,
                bitrate: 2_000_000,
                codec: VideoCodec::VP8,
                quality: 75,
            }),
    {
        VideoEncoderConfig {
            width,
            height,
            fps_bits: FPS_30_BITS,
            bitrate: 2_000_000,
            codec: VideoCodec::VP8,
            quality: 75,
        }
    }

    /// Low latency, for slow networks: 30 fps, 800 kbps, quality 60.
    pub fn low_latency_config(width: u32, height: u32) -> (r: VideoEncoderConfig)
        ensures
            r == (VideoEncoderConfig {
                width,
                height,
                fps_bits: FPS_30_BITS,
                bitrate: 800_000,
                codec: VideoCodec::VP8,
                quality: 60,
            }),
    {
        VideoEncoderConfig {
            width,
            height,
            fps_bits: FPS_30_BITS,
            bitrate: 800_000,
            codec: VideoCodec::VP8,
            quality: 60,
        }
    }

    /// The preset for a network quality: high quality when excellent,
    /// standard when good, low latency when poor.
    pub fn adaptive_config(width: u32, height: u32, network_quality: NetworkQuality) -> (r: VideoEncoderConfig)
        ensures
            r == match network_quality {
                NetworkQuality::Excellent => VideoEncoderConfig {
                    width,
                    height,
                    fps_bits: FPS_60_BITS,
                    bitrate: 8_000_000,
                    codec: VideoCodec::VP8,
                    quality: 90,
                },
                NetworkQuality::Good => VideoEncoderConfig {
                    width,
                    height,
                    fps_bits: FPS_30_BITS,
                    bitrate: 2_000_000,
                    codec: VideoCodec::VP8,
                    quality: 75,
                },
                NetworkQuality::Poor => VideoEncoderConfig {
                    width,
                    height,
                    fps_bits: FPS_30_BITS,
                    bitrate: 800_000,
                    codec: VideoCodec::VP8,
                    quality: 60,
                },
            },
    {
        match network_quality {
            NetworkQuality::Excellent => Self::high_quality_config(width, height),
            NetworkQuality::Good => Self::standard_quality_config(width, height),
            NetworkQuality::Poor => Self::low_latency_config(width, height),
        }
    }
}

} // verus!

//! The video stream's settings and presets, its run state, its counters, and
//! the capture side's frames and pixel conversion.
use vstd::prelude::*;

use crate::text::owned;
use crate::video_encoder::{
    NetworkQuality, VideoEncoderConfig, FPS_15_BITS, FPS_30_BITS, FPS_60_BITS,
};
use crate::video_track::TrackCounters;

verus! {

/// Bit pattern of the `f64` interval 5.0 seconds.
pub const ADAPT_INTERVAL_5S_BITS: u64 = 0x4014_0000_0000_0000;

/// Screen capture settings: target size and the highest frame rate, as the
/// bit pattern of an `f32`.
#[derive(Debug, Clone, Copy, PartialEq, Eq, Structural)]
pub struct CaptureConfig {
    pub target_width: u32,
    pub target_height: u32,
    pub max_fps_bits: u32,
}

impl Default for CaptureConfig {
    /// 1920x1080 at up to 30 fps.
    fn default() -> (r: Self)
        ensures
            r == (CaptureConfig { target_width: 1920, target_height: 1080, max_fps_bits: FPS_30_BITS }),
    {
        CaptureConfig { target_width: 1920, target_height: 1080, max_fps_bits: FPS_30_BITS }
    }
}

/// A captured frame of RGBA pixels.
#[derive(Debug, Clone)]
pub struct VideoFrame {
    pub data: Vec<u8>,
}

/// A frame as the platform capturer delivers it.
#[derive(Debug, Clone)]
pub struct RawVideoFrame {
    pub data: Vec<u8>,
}

/// Capture counters.
#[derive(Debug, Clone, Copy, PartialEq, Eq, Structural)]
pub struct CaptureStats {
    pub dropped_frames: u64,
    pub capture_errors: u64,
}

impl CaptureStats {
    /// No frame dropped, no error.
    pub fn new() -> (r: Self)
        ensures
            r == (CaptureStats { dropped_frames: 0, capture_errors: 0 }),
    {
        CaptureStats { dropped_frames: 0, capture_errors: 0 }
    }

    /// Records a failed capture.
    pub fn record_capture_error(&mut self)
        requires
            old(self).capture_errors < u64::MAX,
        ensures
            *final(self) == (CaptureStats {
                capture_errors: (old(self).capture_errors + 1) as u64,
                ..*old(self)
            }),
    {
        self.capture_errors = self.capture_errors + 1;
    }
}

/// Screen size of the Windows GDI capturer.
#[derive(Debug, Clone, Copy, PartialEq, Eq, Structural)]
pub struct WindowsScreenCapture {
    pub screen_width: u32,
    pub screen_height: u32,
}

impl WindowsScreenCapture {
    /// Bytes of the BGRA buffer GDI fills for the whole screen.
    pub fn pixel_buffer_len(&self) -> (r: usize)
        requires
            self.screen_width * self.screen_height * 4 <= usize::MAX,
            self.screen_width * self.screen_height <= u32::MAX,
        ensures
            r == self.screen_width * self.screen_height * 4,
    {
        let pixel_count = (self.screen_width * self.screen_height) as usize;
        pixel_count * 4
    }
}

/// The RGBA bytes of the first `n` pixels of a BGRA buffer: for each pixel
/// its third, second, first and fourth byte.
pub open spec fn rgba_prefix(d: Seq<u8>, n: nat) -> Seq<u8>
    decreases n,
{
    if n == 0 {
        Seq::empty()
    } else {
        let p = 4 * (n - 1);
        rgba_prefix(d, (n - 1) as nat) + seq![d[p + 2], d[p + 1], d[p], d[p + 3]]
    }
}

/// Reorders GDI's BGRA pixels as RGBA; a trailing partial pixel is dropped.
pub fn bgra_to_rgba(pixel_data: &[u8]) -> (r: Vec<u8>)
    ensures
        r@ == rgba_prefix(pixel_data@, pixel_data@.len() / 4),
{
    let n = pixel_data.len() / 4;
    let mut rgba: Vec<u8> = Vec::new();
    let mut j: usize = 0;
    while j < n
        invariant
            n == pixel_data@.len() / 4,
            4 * n <= pixel_data.len(),
            j <= n,
            rgba@ == rgba_prefix(pixel_data@, j as nat),
        decreases n - j,
    {
        let base = 4 * j;
        rgba.push(pixel_data[base + 2]);
        rgba.push(pixel_data[base + 1]);
        rgba.push(pixel_data[base]);
        rgba.push(pixel_data[base + 3]);
        j = j + 1;
        assert(rgba@ == rgba_prefix(pixel_data@, j as nat));
    }
    rgba
}

/// Stream settings: encoder and capture settings, the network quality they
/// were chosen for, whether quality adapts, and the adaptation interval in
/// seconds, as the bit pattern of an `f64`.
#[derive(Debug, Clone, Copy, PartialEq, Eq, Structural)]
pub struct StreamConfig {
    pub video_config: VideoEncoderConfig,
    pub capture_config: CaptureConfig,
    pub network_quality: NetworkQuality,
    pub adaptive_quality: bool,
    pub quality_adapt_interval_bits: u64,
}

pub open spec fn default_stream_config() -> StreamConfig {
    StreamConfig {
        video_config: VideoEncoderConfig {
            width: 1920,
            height: 1080,
            fps_bits: FPS_30_BITS,
            bitrate: 2_000_000,
            codec: crate::video_encoder::VideoCodec::VP8,
            quality: 75,
        },
        capture_config: CaptureConfig { target_width: 1920, target_height: 1080, max_fps_bits: FPS_30_BITS },
        network_quality: NetworkQuality::Good,
        adaptive_quality: true,
        quality_adapt_interval_bits: ADAPT_INTERVAL_5S_BITS,
    }
}

impl Default for StreamConfig {
    /// Default encoder and capture settings, good network, adaptive every 5 s.
    fn default() -> (r: Self)
        ensures
            r == default_stream_config(),
    {
        StreamConfig {
            video_config: VideoEncoderConfig::default(),
            capture_config: CaptureConfig::default(),
            network_quality: NetworkQuality::Good,
            adaptive_quality: true,
            quality_adapt_interval_bits: ADAPT_INTERVAL_5S_BITS,
        }
    }
}

/// A preset: the defaults with the given quality, size (for encoder and
/// capture), frame rate (for both) and bitrate.
pub open spec fn preset(q: NetworkQuality, w: u32, h: u32, fps_bits: u32, bitrate: u32) -> StreamConfig {
    let d = default_stream_config();
    StreamConfig {
        video_config: VideoEncoderConfig { width: w, height: h, fps_bits, bitrate, ..d.video_config },
        capture_config: CaptureConfig { target_width: w, target_height: h, max_fps_bits: fps_bits },
        network_quality: q,
        ..d
    }
}

/// Builds stream settings step by step from the defaults.
pub struct StreamConfigBuilder {
    config: StreamConfig,
}

impl StreamConfigBuilder {
    pub closed spec fn config(&self) -> StreamConfig {
        self.config
    }

    /// Starts from the default settings.
    pub fn new() -> (r: Self)
        ensures
            r.config() == default_stream_config(),
    {
        StreamConfigBuilder { config: StreamConfig::default() }
    }

    /// Sets the network quality.
    pub fn video_quality(self, quality: NetworkQuality) -> (r: Self)
        ensures
            r.config() == (StreamConfig { network_quality: quality, ..self.config() }),
    {
        let mut s = self;
        s.config.network_quality = quality;
        s
    }

    /// Sets the size, for the encoder and the capture.
    pub fn resolution(self, width: u32, height: u32) -> (r: Self)
        ensures
            r.config() == (StreamConfig {
                video_config: VideoEncoderConfig { width, height, ..self.config().video_config },
                capture_config: CaptureConfig {
                    target_width: width,
                    target_height: height,
                    ..self.config().capture_config
                },
                ..self.config()
            }),
    {
        let mut s = self;
        s.config.video_config.width = width;
        s.config.video_config.height = height;
        s.config.capture_config.target_width = width;
        s.config.capture_config.target_height = height;
        s
    }

    /// Sets the frame rate (bit pattern of an `f32`), for the encoder and as
    /// the capture's highest rate.
    pub fn fps(self, fps_bits: u32) -> (r: Self)
        ensures
            r.config() == (StreamConfig {
                video_config: VideoEncoderConfig { fps_bits, ..self.config().video_config },
                capture_config: CaptureConfig { max_fps_bits: fps_bits, ..self.config().capture_config },
                ..self.config()
            }),
    {
        let mut s = self;
        s.config.video_config.fps_bits = fps_bits;
        s.config.capture_config.max_fps_bits = fps_bits;
        s
    }

    /// Sets the bitrate.
    pub fn bitrate(self, bitrate: u32) -> (r: Self)
        ensures
            r.config() == (StreamConfig {
                video_config: VideoEncoderConfig { bitrate, ..self.config().video_config },
                ..self.config()
            }),
    {
        let mut s = self;
        s.config.video_config.bitrate = bitrate;
        s
    }

    /// The settings built.
    pub fn build(self) -> (r: StreamConfig)
        ensures
            r == self.config(),
    {
        self.config
    }
}

impl StreamConfig {
    /// Excellent network: 1920x1080 at 60 fps, 8 Mbps.
    pub fn high_quality() -> (r: Self)
        ensures
            r == preset(NetworkQuality::Excellent, 1920, 1080, FPS_60_BITS, 8_000_000),
    {
        StreamConfigBuilder::new().video_quality(NetworkQuality::Excellent).resolution(1920, 1080).fps(
            FPS_60_BITS,
        ).bitrate(8_000_000).build()
    }

    /// Good network: 1920x1080 at 30 fps, 2 Mbps.
    pub fn standard_quality() -> (r: Self)
        ensures
            r == preset(NetworkQuality::Good, 1920, 1080, FPS_30_BITS, 2_000_000),
    {
        StreamConfigBuilder::new().video_quality(NetworkQuality::Good).resolution(1920, 1080).fps(
            FPS_30_BITS,
        ).bitrate(2_000_000).build()
    }

    /// Poor network: 1280x720 at 15 fps, 500 kbps.
    pub fn low_latency() -> (r: Self)
        ensures
            r == preset(NetworkQuality::Poor, 1280, 720, FPS_15_BITS, 500_000),
    {
        StreamConfigBuilder::new().video_quality(NetworkQuality::Poor).resolution(1280, 720).fps(
            FPS_15_BITS,
        ).bitrate(500_000).build()
    }

    /// The preset for a network quality.
    pub fn for_quality(quality: NetworkQuality) -> (r: Self)
        ensures
            r == match quality {
                NetworkQuality::Excellent => preset(NetworkQuality::Excellent, 1920, 1080, FPS_60_BITS, 8_000_000),
                NetworkQuality::Good => preset(NetworkQuality::Good, 1920, 1080, FPS_30_BITS, 2_000_000),
                NetworkQuality::Poor => preset(NetworkQuality::Poor, 1280, 720, FPS_15_BITS, 500_000),
            },
    {
        match quality {
            NetworkQuality::Excellent => Self::high_quality(),
            NetworkQuality::Good => Self::standard_quality(),
            NetworkQuality::Poor => Self::low_latency(),
        }
    }
}

/// Run state of a video stream.
#[derive(Debug, Clone)]
pub enum StreamState {
    Stopped,
    Starting,
    Running,
    Stopping,
    Error(String),
}

/// Why a stream request was refused.
#[derive(Debug, Clone, Copy, PartialEq, Eq, Structural)]
pub enum StreamError {
    /// The stream is already running or starting.
    AlreadyActive,
}

impl StreamState {
    /// Whether the stream is stopped.
    pub fn is_stopped(&self) -> (r: bool)
        ensures
            r == (*self is Stopped),
    {
        match self {
            StreamState::Stopped => true,
            _ => false,
        }
    }
}

/// The run state of a stream and its transitions.
pub struct StreamLifecycle {
    pub state: StreamState,
}

/// The state after a start request, and the request's answer: a stopped
/// stream begins starting; any other is refused with `AlreadyActive` and
/// stays as it was.
pub open spec fn begin_start_spec(s: StreamState) -> (StreamState, Result<(), StreamError>) {
    if s is Stopped {
        (StreamState::Starting, Ok(()))
    } else {
        (s, Err(StreamError::AlreadyActive))
    }
}

/// The state once the stream's tasks are up: running.
pub open spec fn started_spec(s: StreamState) -> StreamState {
    StreamState::Running
}

/// A start request on a stopped stream is accepted, and once its tasks are up
/// (`started`) the stream runs; on any other stream it is refused with
/// `AlreadyActive` and the state is unchanged.
pub proof fn law_start_reaches_running(s: StreamState)
    ensures
        s is Stopped ==> begin_start_spec(s).1 is Ok && begin_start_spec(s).0 is Starting && started_spec(
            begin_start_spec(s).0,
        ) is Running,
        !(s is Stopped) ==> begin_start_spec(s) == (s, Err::<(), StreamError>(StreamError::AlreadyActive)),
{
}

impl StreamLifecycle {
    /// A stopped stream.
    pub fn new() -> (r: Self)
        ensures
            r.state is Stopped,
    {
        StreamLifecycle { state: StreamState::Stopped }
    }

    /// Begins starting: only a stopped stream starts (it becomes `Starting`);
    /// any other state refuses with `AlreadyActive` and stays.
    pub fn begin_start(&mut self) -> (r: Result<(), StreamError>)
        ensures
            (final(self).state, r) == begin_start_spec(old(self).state),
    {
        if !self.state.is_stopped() {
            return Err(StreamError::AlreadyActive);
        }
        self.state = StreamState::Starting;
        Ok(())
    }

    /// The stream's tasks are up: it runs.
    pub fn started(&mut self)
        ensures
            final(self).state == started_spec(old(self).state),
    {
        self.state = StreamState::Running;
    }

    /// Begins stopping: returns whether there is anything to stop; a stream
    /// not stopped becomes `Stopping`.
    pub fn begin_stop(&mut self) -> (r: bool)
        ensures
            r == !(old(self).state is Stopped),
            r ==> final(self).state is Stopping,
            !r ==> final(self).state == old(self).state,
    {
        if self.state.is_stopped() {
            return false;
        }
        self.state = StreamState::Stopping;
        true
    }

    /// The stream's tasks ended: it is stopped.
    pub fn tasks_ended(&mut self)
        ensures
            final(self).state is Stopped,
    {
        self.state = StreamState::Stopped;
    }

    /// Capture could not start: the stream is in error with the reason.
    pub fn capture_failed(&mut self, reason: String)
        ensures
            final(self).state == StreamState::Error(reason),
    {
        self.state = StreamState::Error(reason);
    }
}

/// Stream counters, as reported: the stream's own counts with the track's
/// transmission figures and the capture's error and drop counts.
#[derive(Debug, Clone, Copy, PartialEq, Eq, Structural)]
pub struct StreamStats {
    pub frames_captured: u64,
    pub frames_encoded: u64,
    pub frames_transmitted: u64,
    pub frames_dropped: u64,
    pub total_bytes_sent: u64,
    pub capture_errors: u64,
    pub encoding_errors: u64,
    pub transmission_errors: u64,
}

impl StreamStats {
    /// All counters at zero.
    pub fn new() -> (r: Self)
        ensures
            r == (StreamStats {
                frames_captured: 0,
                frames_encoded: 0,
                frames_transmitted: 0,
                frames_dropped: 0,
                total_bytes_sent: 0,
                capture_errors: 0,
                encoding_errors: 0,
                transmission_errors: 0,
            }),
    {
        StreamStats {
            frames_captured: 0,
            frames_encoded: 0,
            frames_transmitted: 0,
            frames_dropped: 0,
            total_bytes_sent: 0,
            capture_errors: 0,
            encoding_errors: 0,
            transmission_errors: 0,
        }
    }

    /// A frame was encoded and sent.
    pub fn record_frame_sent(&mut self)
        requires
            old(self).frames_captured < u64::MAX,
            old(self).frames_encoded < u64::MAX,
        ensures
            *final(self) == (StreamStats {
                frames_captured: (old(self).frames_captured + 1) as u64,
                frames_encoded: (old(self).frames_encoded + 1) as u64,
                ..*old(self)
            }),
    {
        self.frames_captured = self.frames_captured + 1;
        self.frames_encoded = self.frames_encoded + 1;
    }

    /// A frame could not be encoded.
    pub fn record_encoding_error(&mut self)
        requires
            old(self).encoding_errors < u64::MAX,
        ensures
            *final(self) == (StreamStats {
                encoding_errors: (old(self).encoding_errors + 1) as u64,
                ..*old(self)
            }),
    {
        self.encoding_errors = self.encoding_errors + 1;
    }

    /// An encoded frame could not be sent.
    pub fn record_transmission_error(&mut self)
        requires
            old(self).transmission_errors < u64::MAX,
        ensures
            *final(self) == (StreamStats {
                transmission_errors: (old(self).transmission_errors + 1) as u64,
                ..*old(self)
            }),
    {
        self.transmission_errors = self.transmission_errors + 1;
    }

    /// The counters reported for the stream: the track's frames, bytes and
    /// transmission errors and the capture's errors and drops replace the
    /// stream's own.
    pub fn merged(&self, track: &TrackCounters, capture: &CaptureStats) -> (r: StreamStats)
        ensures
            r == (StreamStats {
                frames_transmitted: track.frames_sent,
                total_bytes_sent: track.bytes_sent,
                transmission_errors: track.transmission_errors,
                capture_errors: capture.capture_errors,
                frames_dropped: capture.dropped_frames,
                ..*self
            }),
    {
        StreamStats {
            frames_transmitted: track.frames_sent,
            total_bytes_sent: track.bytes_sent,
            transmission_errors: track.transmission_errors,
            capture_errors: capture.capture_errors,
            frames_dropped: capture.dropped_frames,
            ..*self
        }
    }
}

/// What became of one frame taken from the capture stream.
#[derive(Debug, Clone, Copy, PartialEq, Eq, Structural)]
pub enum FrameOutcome {
    /// Encoded and sent.
    Sent,
    /// Encoded, but sending failed.
    SendFailed,
    /// Dropped while a re-configured encoder warms up.
    Warming,
    /// Encoding failed.
    EncodeFailed,
}

/// The stream counters after one frame's outcome: a frame sent counts as
/// captured and encoded, a failed send as a transmission error, a failed
/// encode as an encoding error; a frame dropped while an encoder warms up
/// changes nothing.
pub open spec fn after_outcome(s: StreamStats, o: FrameOutcome) -> StreamStats {
    match o {
        FrameOutcome::Sent => StreamStats {
            frames_captured: (s.frames_captured + 1) as u64,
            frames_encoded: (s.frames_encoded + 1) as u64,
            ..s
        },
        FrameOutcome::SendFailed => StreamStats { transmission_errors: (s.transmission_errors + 1) as u64, ..s },
        FrameOutcome::Warming => s,
        FrameOutcome::EncodeFailed => StreamStats { encoding_errors: (s.encoding_errors + 1) as u64, ..s },
    }
}

/// The counter an outcome adds to is below its maximum.
pub open spec fn outcome_fits(s: StreamStats, o: FrameOutcome) -> bool {
    match o {
        FrameOutcome::Sent => s.frames_captured < u64::MAX && s.frames_encoded < u64::MAX,
        FrameOutcome::SendFailed => s.transmission_errors < u64::MAX,
        FrameOutcome::Warming => true,
        FrameOutcome::EncodeFailed => s.encoding_errors < u64::MAX,
    }
}

impl StreamStats {
    /// Records one frame's outcome (see `after_outcome`).
    pub fn record_outcome(&mut self, o: FrameOutcome)
        requires
            outcome_fits(*old(self), o),
        ensures
            *final(self) == after_outcome(*old(self), o),
    {
        match o {
            FrameOutcome::Sent => self.record_frame_sent(),
            FrameOutcome::SendFailed => self.record_transmission_error(),
            FrameOutcome::Warming => {},
            FrameOutcome::EncodeFailed => self.record_encoding_error(),
        }
    }
}

/// The frame the stream encodes when several are waiting: the newest, the
/// last of those that arrived after `first`, or `first` when none did.
pub fn newest_frame<T>(first: T, later: Vec<T>) -> (r: T)
    ensures
        later@.len() == 0 ==> r == first,
        later@.len() > 0 ==> r == later@.last(),
{
    let mut later = later;
    match later.pop() {
        Some(f) => f,
        None => first,
    }
}

/// Text of the refusal to start a stream that is already active.
pub fn stream_error_text(e: StreamError) -> (r: String)
    ensures
        r@ == "视频流已在运行或正在启动"@,
{
    match e {
        StreamError::AlreadyActive => owned("视频流已在运行或正在启动"),
    }
}

} // verus!

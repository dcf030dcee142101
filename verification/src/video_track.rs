//! The H.264 video track's logic: turning encoded frames into RTP payloads
//! (parameter sets first on key frames), RTP timestamp steps, transmission
//! counters, the switch to a re-configured encoder, and quality adaptation.
use vstd::prelude::*;

use openh264::encoder::Encoder;

use crate::annexb::{
    build_stap_a, last_unit_of_type, last_unit_with_type, nalus_spec, opt_bytes_view, split_nalus,
    stap_a_spec, NAL_TYPE_PPS, NAL_TYPE_SPS,
};
use crate::video_encoder::{
    config_eq, config_eq_spec, encode_failed, encode_outcome, encode_ready, encode_succeeded, frame_fed, rgba_stride, yuv_refused, EncodeError, EncodedFrame, H264VideoEncoder, KeyframeSchedule, NetworkQuality, VideoEncoderConfig,
    FPS_30_BITS, FPS_60_BITS,
};

verus! {

/// RTP clock ticks per frame when no earlier frame timing is known (90 kHz at 30 fps).
pub const DEFAULT_FRAME_TICKS: u32 = 3000;

/// RTP timestamp step for a frame sent `delta_us` microseconds after the
/// previous one: 90 ticks per millisecond, at least one; 3000 for the first.
pub open spec fn samples_increment_spec(delta_us: Option<u32>) -> u32 {
    match delta_us {
        None => DEFAULT_FRAME_TICKS,
        Some(d) => if (90 * d) / 1000 >= 1 {
            ((90 * d) / 1000) as u32
        } else {
            1
        },
    }
}

/// The RTP timestamp step of a frame (see `samples_increment_spec`).
pub fn samples_increment(delta_us: Option<u32>) -> (r: u32)
    requires
        delta_us matches Some(d) ==> 90 * d <= u32::MAX,
    ensures
        r == samples_increment_spec(delta_us),
{
    match delta_us {
        None => DEFAULT_FRAME_TICKS,
        Some(d) => {
            let ticks = (90 * d) / 1000;
            if ticks >= 1 {
                ticks
            } else {
                1
            }
        },
    }
}

/// One payload for the RTP packetizer: its bytes, the RTP timestamp step
/// passed with it, whether its last packet carries the marker bit, and
/// whether it is the parameter-set aggregate sent ahead of a key frame (whose
/// packets go out at once and do not count toward the frame's bytes).
#[derive(Debug, Clone)]
pub struct RtpPayload {
    pub data: Vec<u8>,
    pub samples: u32,
    pub marker: bool,
    pub parameter_sets: bool,
}

pub struct PayloadView {
    pub data: Seq<u8>,
    pub samples: u32,
    pub marker: bool,
    pub parameter_sets: bool,
}

impl View for RtpPayload {
    type V = PayloadView;

    open spec fn view(&self) -> PayloadView {
        PayloadView {
            data: self.data@,
            samples: self.samples,
            marker: self.marker,
            parameter_sets: self.parameter_sets,
        }
    }
}

pub open spec fn payloads_view(ps: Seq<RtpPayload>) -> Seq<PayloadView> {
    ps.map_values(|p: RtpPayload| p@)
}

/// The payloads of a frame's NAL units: the first carries the frame's
/// timestamp step, the last the marker bit.
pub open spec fn nalu_payloads(ns: Seq<Seq<u8>>, inc: u32) -> Seq<PayloadView> {
    Seq::new(
        ns.len(),
        |i: int|
            PayloadView {
                data: ns[i],
                samples: if i == 0 {
                    inc
                } else {
                    0
                },
                marker: i == ns.len() - 1,
                parameter_sets: false,
            },
    )
}

/// What a frame is sent as. An empty frame sends nothing. A key frame that
/// carries both an SPS and a PPS sends them first, in one STAP-A payload
/// without timestamp step; then every NAL unit follows in stream order.
pub open spec fn frame_payloads(data: Seq<u8>, keyframe: bool, inc: u32) -> Seq<PayloadView> {
    if data.len() == 0 {
        Seq::empty()
    } else {
        let ns = nalus_spec(data);
        let sps = last_unit_of_type(ns, NAL_TYPE_SPS);
        let pps = last_unit_of_type(ns, NAL_TYPE_PPS);
        let lead = if keyframe && sps is Some && pps is Some {
            seq![
                PayloadView {
                    data: stap_a_spec(sps.unwrap(), pps.unwrap()),
                    samples: 0,
                    marker: false,
                    parameter_sets: true,
                },
            ]
        } else {
            Seq::empty()
        };
        lead + nalu_payloads(ns, inc)
    }
}

/// The parameter set of type `t` remembered after sending a frame: a key
/// frame that carries one replaces the remembered one.
pub open spec fn cached_after(cache: Option<Seq<u8>>, data: Seq<u8>, keyframe: bool, t: u8) -> Option<Seq<u8>> {
    if data.len() > 0 && keyframe && last_unit_of_type(nalus_spec(data), t) is Some {
        last_unit_of_type(nalus_spec(data), t)
    } else {
        cache
    }
}

/// Sending state of the track: when the last frame went out (in
/// microseconds on a monotonic clock) and the last SPS and PPS seen.
pub struct FrameSender {
    pub last_send_us: Option<u64>,
    pub last_sps: Option<Vec<u8>>,
    pub last_pps: Option<Vec<u8>>,
}

/// Microseconds between two clock readings as the 32-bit count the track
/// uses: zero when the clock went backwards, truncated to 32 bits.
pub open spec fn delta_us_spec(prev: u64, now: u64) -> u32 {
    if now >= prev {
        ((now - prev) % 0x1_0000_0000) as u32
    } else {
        0
    }
}

/// The timestamp step of a frame sent at `now` (see `samples_increment_spec`).
pub open spec fn frame_ticks(last: Option<u64>, now: u64) -> u32 {
    match last {
        None => samples_increment_spec(None),
        Some(p) => samples_increment_spec(Some(delta_us_spec(p, now))),
    }
}

impl FrameSender {
    /// Nothing sent yet, no parameter sets known.
    pub fn new() -> (r: Self)
        ensures
            r.last_send_us is None,
            r.last_sps is None,
            r.last_pps is None,
    {
        FrameSender { last_send_us: None, last_pps: None, last_sps: None }
    }

    /// The frame may be planned at `now`: its timestamp step stays in 32 bits.
    pub open spec fn can_plan(&self, now_us: u64) -> bool {
        self.last_send_us matches Some(p) ==> 90 * delta_us_spec(p, now_us) <= u32::MAX
    }

    /// The payloads that send `frame` at `now_us` (see `frame_payloads`); the
    /// parameter-set cache and the send time are updated for a non-empty frame.
    pub fn plan_frame(&mut self, frame: &EncodedFrame, now_us: u64) -> (r: Vec<RtpPayload>)
        requires
            frame.data@.len() > 0 ==> old(self).can_plan(now_us),
        ensures
            payloads_view(r@) == frame_payloads(
                frame.data@,
                frame.is_keyframe,
                frame_ticks(old(self).last_send_us, now_us),
            ),
            final(self).last_send_us == if frame.data@.len() == 0 {
                old(self).last_send_us
            } else {
                Some(now_us)
            },
            opt_bytes_view(final(self).last_sps) == cached_after(
                opt_bytes_view(old(self).last_sps),
                frame.data@,
                frame.is_keyframe,
                NAL_TYPE_SPS,
            ),
            opt_bytes_view(final(self).last_pps) == cached_after(
                opt_bytes_view(old(self).last_pps),
                frame.data@,
                frame.is_keyframe,
                NAL_TYPE_PPS,
            ),
    {
        let mut out: Vec<RtpPayload> = Vec::new();
        if frame.data.len() == 0 {
            return out;
        }
        let delta = match self.last_send_us {
            None => None,
            Some(prev) => {
                let d: u32 = if now_us >= prev {
                    ((now_us - prev) % 0x1_0000_0000) as u32
                } else {
                    0
                };
                Some(d)
            },
        };
        let inc = samples_increment(delta);
        self.last_send_us = Some(now_us);
        let nalus = split_nalus(&frame.data);
        let ghost ns = nalus_spec(frame.data@);
        proof {
            assert(nalus@.map_values(|v: Vec<u8>| v@) == ns);
        }
        if frame.is_keyframe {
            let cur_sps = last_unit_with_type(&nalus, NAL_TYPE_SPS);
            let cur_pps = last_unit_with_type(&nalus, NAL_TYPE_PPS);
            match (&cur_sps, &cur_pps) {
                (Some(sps), Some(pps)) => {
                    let stap = build_stap_a(sps, pps);
                    out.push(RtpPayload { data: stap, samples: 0, marker: false, parameter_sets: true });
                },
                _ => {},
            }
            if cur_sps.is_some() {
                self.last_sps = cur_sps;
            }
            if cur_pps.is_some() {
                self.last_pps = cur_pps;
            }
        }
        let ghost lead = payloads_view(out@);
        let n = nalus.len();
        let mut idx: usize = 0;
        while idx < n
            invariant
                n == nalus@.len(),
                n == ns.len(),
                idx <= n,
                forall|k: int| 0 <= k < n ==> #[trigger] nalus@[k]@ == ns[k],
                payloads_view(out@) == lead + nalu_payloads(ns, inc).take(idx as int),
            decreases n - idx,
        {
            let samples = if idx == 0 {
                inc
            } else {
                0
            };
            let piece = nalus[idx].clone();
            proof {
                assert(piece@ == ns[idx as int]);
            }
            let ghost before = out@;
            let payload = RtpPayload { data: piece, samples, marker: idx == n - 1, parameter_sets: false };
            out.push(payload);
            proof {
                assert(payloads_view(out@) =~= payloads_view(before).push(payload@));
                assert(nalu_payloads(ns, inc).take(idx + 1) =~= nalu_payloads(ns, inc).take(idx as int).push(
                    payload@,
                ));
            }
            idx = idx + 1;
        }
        proof {
            assert(nalu_payloads(ns, inc).take(n as int) == nalu_payloads(ns, inc));
        }
        out
    }
}

/// Bytes on the wire for packets with the given payload sizes: each packet
/// adds a 12-byte RTP header.
pub open spec fn wire_bytes(lens: Seq<usize>) -> int
    decreases lens.len(),
{
    if lens.len() == 0 {
        0
    } else {
        wire_bytes(lens.drop_last()) + lens.last() + 12
    }
}

/// Total bytes sent for packets with these payload sizes (see `wire_bytes`).
pub fn rtp_bytes_total(payload_lens: &Vec<usize>) -> (r: usize)
    requires
        wire_bytes(payload_lens@) <= usize::MAX,
    ensures
        r == wire_bytes(payload_lens@),
{
    let mut total: usize = 0;
    let mut k: usize = 0;
    while k < payload_lens.len()
        invariant
            k <= payload_lens@.len(),
            wire_bytes(payload_lens@) <= usize::MAX,
            total == wire_bytes(payload_lens@.take(k as int)),
        decreases payload_lens@.len() - k,
    {
        proof {
            assert(payload_lens@.take(k + 1).drop_last() == payload_lens@.take(k as int));
            lemma_wire_bytes_prefix(payload_lens@, k + 1);
        }
        total = total + payload_lens[k] + 12;
        k = k + 1;
    }
    proof {
        assert(payload_lens@.take(k as int) == payload_lens@);
    }
    total
}

proof fn lemma_wire_bytes_prefix(lens: Seq<usize>, k: int)
    requires
        0 <= k <= lens.len(),
    ensures
        wire_bytes(lens.take(k)) <= wire_bytes(lens),
    decreases lens.len(),
{
    if k < lens.len() {
        lemma_wire_bytes_prefix(lens.drop_last(), k);
        assert(lens.drop_last().take(k) == lens.take(k));
    } else {
        assert(lens.take(k) == lens);
    }
}

/// Counters of what the track transmitted.
#[derive(Debug, Clone, Copy, PartialEq, Eq, Structural)]
pub struct TrackCounters {
    pub frames_sent: u64,
    pub bytes_sent: u64,
    pub keyframes_sent: u64,
    pub transmission_errors: u64,
}

impl TrackCounters {
    /// All counters at zero.
    pub fn new() -> (r: Self)
        ensures
            r == (TrackCounters { frames_sent: 0, bytes_sent: 0, keyframes_sent: 0, transmission_errors: 0 }),
    {
        TrackCounters { frames_sent: 0, bytes_sent: 0, keyframes_sent: 0, transmission_errors: 0 }
    }

    /// The counters after a frame of `bytes` bytes was sent.
    pub open spec fn after_sent(self, bytes: u64, keyframe: bool) -> TrackCounters {
        TrackCounters {
            frames_sent: (self.frames_sent + 1) as u64,
            bytes_sent: (self.bytes_sent + bytes) as u64,
            keyframes_sent: if keyframe {
                (self.keyframes_sent + 1) as u64
            } else {
                self.keyframes_sent
            },
            transmission_errors: self.transmission_errors,
        }
    }

    /// The counters after a frame could not be sent.
    pub open spec fn after_error(self) -> TrackCounters {
        TrackCounters { transmission_errors: (self.transmission_errors + 1) as u64, ..self }
    }

    /// Records a frame sent as `bytes` bytes.
    pub fn record_sent(&mut self, bytes: u64, keyframe: bool)
        requires
            old(self).frames_sent < u64::MAX,
            old(self).keyframes_sent < u64::MAX,
            old(self).bytes_sent + bytes <= u64::MAX,
        ensures
            *final(self) == old(self).after_sent(bytes, keyframe),
    {
        self.frames_sent = self.frames_sent + 1;
        self.bytes_sent = self.bytes_sent + bytes;
        if keyframe {
            self.keyframes_sent = self.keyframes_sent + 1;
        }
    }

    /// Records a frame that could not be sent.
    pub fn record_error(&mut self)
        requires
            old(self).transmission_errors < u64::MAX,
        ensures
            *final(self) == old(self).after_error(),
    {
        self.transmission_errors = self.transmission_errors + 1;
    }
}

/// One frame taken from the track's queue: sent (with its size and whether it
/// is a key frame) or failed.
pub enum SendOutcome {
    Sent(u64, bool),
    Failed,
}

/// The counters after a run of send outcomes, from `c`.
pub open spec fn counters_after(c: TrackCounters, run: Seq<SendOutcome>) -> TrackCounters
    decreases run.len(),
{
    if run.len() == 0 {
        c
    } else {
        let prev = counters_after(c, run.drop_last());
        match run.last() {
            SendOutcome::Sent(bytes, keyframe) => prev.after_sent(bytes, keyframe),
            SendOutcome::Failed => prev.after_error(),
        }
    }
}

/// Counts that stayed within `u64` over the whole run.
pub open spec fn run_fits(c: TrackCounters, run: Seq<SendOutcome>) -> bool {
    forall|k: int|
        0 <= k < run.len() ==> {
            let prev = #[trigger] counters_after(c, run.take(k));
            &&& prev.frames_sent < u64::MAX
            &&& prev.transmission_errors < u64::MAX
            &&& (run[k] matches SendOutcome::Sent(bytes, _) ==> prev.bytes_sent + bytes <= u64::MAX)
        }
}

/// Over any run of frames from fresh counters, key frames sent never exceed
/// frames sent; each frame sent adds one to the frames sent and its size to
/// the bytes, and each failure one to the errors, so frames sent plus errors
/// is the length of the run.
pub proof fn law_track_counters(run: Seq<SendOutcome>)
    requires
        run_fits(TrackCounters { frames_sent: 0, bytes_sent: 0, keyframes_sent: 0, transmission_errors: 0 }, run),
    ensures
        ({
            let c = counters_after(
                TrackCounters { frames_sent: 0, bytes_sent: 0, keyframes_sent: 0, transmission_errors: 0 },
                run,
            );
            &&& c.keyframes_sent <= c.frames_sent
            &&& c.frames_sent + c.transmission_errors == run.len()
        }),
    decreases run.len(),
{
    let z = TrackCounters { frames_sent: 0, bytes_sent: 0, keyframes_sent: 0, transmission_errors: 0 };
    if run.len() > 0 {
        let front = run.drop_last();
        assert forall|k: int| 0 <= k < front.len() implies {
            let prev = #[trigger] counters_after(z, front.take(k));
            &&& prev.frames_sent < u64::MAX
            &&& prev.transmission_errors < u64::MAX
            &&& (front[k] matches SendOutcome::Sent(bytes, _) ==> prev.bytes_sent + bytes <= u64::MAX)
        } by {
            assert(front.take(k) == run.take(k));
            assert(counters_after(z, run.take(k)) == counters_after(z, front.take(k)));
        }
        law_track_counters(front);
        assert(run.take(front.len() as int) == front);
        assert(counters_after(z, run.take(front.len() as int)) == counters_after(z, front));
    }
}

/// The track's encoders: the one in use, a re-configured one warming up until
/// it yields its first key frame, and the settings last asked for.
pub struct EncoderSlots {
    encoder: H264VideoEncoder,
    pending_encoder: Option<H264VideoEncoder>,
    config: VideoEncoderConfig,
}

/// What the track needs of an encoder to encode with it: a well-formed
/// schedule that can count another frame, and a size the I420 buffer takes.
pub open spec fn encoder_ready(e: H264VideoEncoder) -> bool {
    &&& encode_ready(e)
    &&& e.schedule().frame_count < u64::MAX
}

impl EncoderSlots {
    /// The encoder in use, with the settings it was built for.
    pub fn new(encoder: H264VideoEncoder) -> (r: Self)
        ensures
            r.current() == encoder,
            r.pending() is None,
            r.config() == encoder.config(),
    {
        let config = *encoder.get_config();
        EncoderSlots { encoder, pending_encoder: None, config }
    }

    pub closed spec fn current(&self) -> H264VideoEncoder {
        self.encoder
    }

    pub closed spec fn pending(&self) -> Option<H264VideoEncoder> {
        self.pending_encoder
    }

    pub closed spec fn config(&self) -> VideoEncoderConfig {
        self.config
    }

    /// The settings last asked for.
    pub fn get_config(&self) -> (r: VideoEncoderConfig)
        ensures
            r == self.config(),
    {
        self.config
    }

    /// The settings and schedule of the encoder that encodes next: the
    /// pending one if any, else the one in use.
    pub fn next_encoder_state(&self) -> (r: (VideoEncoderConfig, KeyframeSchedule))
        ensures
            match self.pending() {
                Some(p) => r == (p.config(), p.schedule()),
                None => r == (self.current().config(), self.current().schedule()),
            },
    {
        match &self.pending_encoder {
            Some(p) => (*p.get_config(), p.get_schedule()),
            None => (*self.encoder.get_config(), self.encoder.get_schedule()),
        }
    }

    /// The settings and schedule of the encoder in use.
    pub fn current_state(&self) -> (r: (VideoEncoderConfig, KeyframeSchedule))
        ensures
            r == (self.current().config(), self.current().schedule()),
    {
        (*self.encoder.get_config(), self.encoder.get_schedule())
    }

    /// Asks the encoder in use for a key frame and encodes a frame with it,
    /// whatever is pending (the way the track sends its black frames).
    pub fn encode_keyframe_with_current(&mut self, rgba_data: &[u8]) -> (r: Result<EncodedFrame, EncodeError>)
        requires
            encoder_ready(old(self).current()),
        ensures
            final(self).pending() == old(self).pending(),
            final(self).config() == old(self).config(),
            final(self).current().config() == old(self).current().config(),
            r matches Ok(f) ==> f.is_keyframe == crate::annexb::is_keyframe_spec(f.data@),
            encode_outcome(
                rgba_data@,
                old(self).current().config(),
                old(self).current().schedule().requested(),
                r,
                final(self).current().schedule(),
            ),
            frame_fed(old(self).current(), final(self).current(), rgba_data@, true),
    {
        self.encoder.request_keyframe();
        self.encoder.encode_frame_sync(rgba_data, 0)
    }

    /// Whether new settings differ from those last asked for, the frame rate
    /// compared as a float.
    pub fn config_changed(&self, new_config: &VideoEncoderConfig) -> (r: bool)
        ensures
            r == !config_eq_spec(*new_config, self.config()),
    {
        !config_eq(new_config, &self.config)
    }

    /// Installs an encoder built for new settings as the pending one, asked
    /// for a key frame first; the settings are recorded.
    pub fn stage_encoder(&mut self, new_config: VideoEncoderConfig, new_encoder: H264VideoEncoder)
        ensures
            final(self).current() == old(self).current(),
            final(self).config() == new_config,
            final(self).pending() matches Some(p) && p.config() == new_encoder.config()
                && p.schedule() == new_encoder.schedule().requested(),
    {
        let mut enc = new_encoder;
        enc.request_keyframe();
        self.pending_encoder = Some(enc);
        self.config = new_config;
    }

    /// Asks the encoder in use for a key frame.
    pub fn force_keyframe(&mut self)
        ensures
            final(self).current().schedule() == old(self).current().schedule().requested(),
            final(self).current().config() == old(self).current().config(),
            final(self).pending() == old(self).pending(),
            final(self).config() == old(self).config(),
    {
        self.encoder.request_keyframe();
    }

    /// Encodes a frame. While an encoder is pending, it encodes: its frames
    /// are dropped (`None`) until the first key frame, which makes it the
    /// encoder in use. Otherwise the encoder in use encodes. Errors are passed
    /// on and change no encoder.
    pub fn encode_rgba_sync(&mut self, rgba_data: &[u8]) -> (r: Result<Option<EncodedFrame>, EncodeError>)
        requires
            match old(self).pending() {
                Some(p) => encoder_ready(p),
                None => encoder_ready(old(self).current()),
            },
        ensures
            final(self).config() == old(self).config(),
            match old(self).pending() {
                Some(p) => match r {
                    Ok(Some(f)) => {
                        &&& f.is_keyframe
                        &&& encode_succeeded(rgba_data@, p.config(), p.schedule(), f, final(self).current().schedule())
                        &&& final(self).pending() is None
                        &&& final(self).current().config() == p.config()
                        &&& frame_fed(p, final(self).current(), rgba_data@, p.schedule().next_force_keyframe)
                    },
                    Ok(None) => {
                        &&& final(self).pending() matches Some(q) && q.config() == p.config()
                            && q.schedule() == p.schedule().begun().0.ended(false)
                            && frame_fed(p, q, rgba_data@, p.schedule().next_force_keyframe)
                        &&& !yuv_refused(rgba_data@.len() as int, p.config().width, p.config().height, rgba_stride(p.config().width))
                        &&& final(self).current() == old(self).current()
                    },
                    Err(e) => {
                        &&& final(self).pending() matches Some(q) && q.config() == p.config()
                            && encode_failed(rgba_data@, p.config(), p.schedule(), e, q.schedule())
                            && frame_fed(p, q, rgba_data@, p.schedule().next_force_keyframe)
                        &&& final(self).current() == old(self).current()
                    },
                },
                None => {
                    &&& final(self).pending() is None
                    &&& final(self).current().config() == old(self).current().config()
                    &&& frame_fed(
                        old(self).current(),
                        final(self).current(),
                        rgba_data@,
                        old(self).current().schedule().next_force_keyframe,
                    )
                    &&& match r {
                        Ok(Some(f)) => encode_succeeded(
                            rgba_data@,
                            old(self).current().config(),
                            old(self).current().schedule(),
                            f,
                            final(self).current().schedule(),
                        ),
                        Ok(None) => false,
                        Err(e) => encode_failed(
                            rgba_data@,
                            old(self).current().config(),
                            old(self).current().schedule(),
                            e,
                            final(self).current().schedule(),
                        ),
                    }
                },
            },
    {
        if self.pending_encoder.is_some() {
            let mut pen = self.pending_encoder.take().unwrap();
            let result = pen.encode_frame_sync(rgba_data, 0);
            match result {
                Err(e) => {
                    self.pending_encoder = Some(pen);
                    Err(e)
                },
                Ok(frame) => {
                    if !frame.is_keyframe {
                        self.pending_encoder = Some(pen);
                        Ok(None)
                    } else {
                        self.encoder = pen;
                        Ok(Some(frame))
                    }
                },
            }
        } else {
            match self.encoder.encode_frame_sync(rgba_data, 0) {
                Err(e) => Err(e),
                Ok(frame) => Ok(Some(frame)),
            }
        }
    }
}

/// Whether two values are within `percent` percent of the larger one.
pub open spec fn approx_equal_spec(a: u32, b: u32, percent: u32) -> bool {
    let hi = if a > b {
        a
    } else {
        b
    };
    let lo = if a > b {
        b
    } else {
        a
    };
    (hi - lo) * 100 <= hi * percent
}

/// Compares two values within a percentage of the larger one.
pub fn approx_equal(a: u32, b: u32, percent: u32) -> (r: bool)
    requires
        (if a > b {
            a - b
        } else {
            b - a
        }) * 100 <= u32::MAX,
        (if a > b {
            a
        } else {
            b
        }) * percent <= u32::MAX,
    ensures
        r == approx_equal_spec(a, b, percent),
{
    let (max, min) = if a > b {
        (a, b)
    } else {
        (b, a)
    };
    (max - min) * 100 <= max * percent
}

/// The settings adaptation aims for at a network quality, from the current
/// settings: 1920x1080 always; when poor, half the bitrate (at least 200 kbps)
/// at quality 60 and the halved frame rate given (`poor_fps_bits`); when good,
/// 30 fps, 2 Mbps, quality 75; when excellent, 60 fps, 5 Mbps, quality 90.
pub open spec fn adapted_config_spec(q: NetworkQuality, cur: VideoEncoderConfig, poor_fps_bits: u32) -> VideoEncoderConfig {
    match q {
        NetworkQuality::Poor => VideoEncoderConfig {
            width: 1920,
            height: 1080,
            fps_bits: poor_fps_bits,
            bitrate: if cur.bitrate / 2 >= 200_000 {
                (cur.bitrate / 2) as u32
            } else {
                200_000
            },
            codec: cur.codec,
            quality: 60,
        },
        NetworkQuality::Good => VideoEncoderConfig {
            width: 1920,
            height: 1080,
            fps_bits: FPS_30_BITS,
            bitrate: 2_000_000,
            codec: cur.codec,
            quality: 75,
        },
        NetworkQuality::Excellent => VideoEncoderConfig {
            width: 1920,
            height: 1080,
            fps_bits: FPS_60_BITS,
            bitrate: 5_000_000,
            codec: cur.codec,
            quality: 90,
        },
    }
}

/// The settings adaptation aims for (see `adapted_config_spec`).
pub fn adapted_config(q: NetworkQuality, cur: &VideoEncoderConfig, poor_fps_bits: u32) -> (r: VideoEncoderConfig)
    ensures
        r == adapted_config_spec(q, *cur, poor_fps_bits),
{
    match q {
        NetworkQuality::Poor => {
            let half = cur.bitrate / 2;
            VideoEncoderConfig {
                width: 1920,
                height: 1080,
                fps_bits: poor_fps_bits,
                bitrate: if half >= 200_000 {
                    half
                } else {
                    200_000
                },
                codec: cur.codec,
                quality: 60,
            }
        },
        NetworkQuality::Good => VideoEncoderConfig {
            width: 1920,
            height: 1080,
            fps_bits: FPS_30_BITS,
            bitrate: 2_000_000,
            codec: cur.codec,
            quality: 75,
        },
        NetworkQuality::Excellent => VideoEncoderConfig {
            width: 1920,
            height: 1080,
            fps_bits: FPS_60_BITS,
            bitrate: 5_000_000,
            codec: cur.codec,
            quality: 90,
        },
    }
}

/// The adapted settings are applied when the quality differs, or the
/// bitrate differs by more than 15 %, or the whole frame rate by more than
/// 20 %; smaller changes are ignored.
pub open spec fn change_wanted_spec(new: VideoEncoderConfig, cur: VideoEncoderConfig, new_fps: u32, cur_fps: u32) -> bool {
    new.quality != cur.quality || !approx_equal_spec(new.bitrate, cur.bitrate, 15) || !approx_equal_spec(
        new_fps,
        cur_fps,
        20,
    )
}

/// Each part of the settings counts on its own. A different quality always
/// wants a change. With the same quality and whole frame rate, a change is
/// wanted exactly when the bitrates differ by more than 15 % of the larger
/// one; with the same quality and bitrate, exactly when the whole frame rates
/// differ by more than 20 % of the larger one. Nothing is wanted when all
/// three agree.
pub proof fn law_change_wanted_parts(new: VideoEncoderConfig, cur: VideoEncoderConfig, new_fps: u32, cur_fps: u32)
    ensures
        new.quality != cur.quality ==> change_wanted_spec(new, cur, new_fps, cur_fps),
        new.quality == cur.quality && new_fps == cur_fps ==> (change_wanted_spec(new, cur, new_fps, cur_fps) <==> {
            let hi: int = if new.bitrate > cur.bitrate {
                new.bitrate as int
            } else {
                cur.bitrate as int
            };
            let lo: int = if new.bitrate > cur.bitrate {
                cur.bitrate as int
            } else {
                new.bitrate as int
            };
            (hi - lo) * 100 > hi * 15
        }),
        new.quality == cur.quality && new.bitrate == cur.bitrate ==> (change_wanted_spec(new, cur, new_fps, cur_fps)
            <==> {
            let hi: int = if new_fps > cur_fps {
                new_fps as int
            } else {
                cur_fps as int
            };
            let lo: int = if new_fps > cur_fps {
                cur_fps as int
            } else {
                new_fps as int
            };
            (hi - lo) * 100 > hi * 20
        }),
        new.quality == cur.quality && new.bitrate == cur.bitrate && new_fps == cur_fps ==> !change_wanted_spec(
            new,
            cur,
            new_fps,
            cur_fps,
        ),
{
}

/// Values for which the percentage comparisons stay within `u32`.
pub open spec fn comparable(a: u32, b: u32, percent: u32) -> bool {
    &&& (if a > b {
        a - b
    } else {
        b - a
    }) * 100 <= u32::MAX
    &&& (if a > b {
        a
    } else {
        b
    }) * percent <= u32::MAX
}

/// Whether adapted settings should replace the current ones (see
/// `change_wanted_spec`); `new_fps` and `cur_fps` are the whole frame rates.
pub fn change_wanted(new: &VideoEncoderConfig, cur: &VideoEncoderConfig, new_fps: u32, cur_fps: u32) -> (r: bool)
    requires
        comparable(new.bitrate, cur.bitrate, 15),
        comparable(new_fps, cur_fps, 20),
    ensures
        r == change_wanted_spec(*new, *cur, new_fps, cur_fps),
{
    new.quality != cur.quality || !approx_equal(new.bitrate, cur.bitrate, 15) || !approx_equal(
        new_fps,
        cur_fps,
        20,
    )
}

/// Frames sent before the capture pipeline counts as working.
pub const KEEPALIVE_MIN_FRAMES: u64 = 5;

/// Black frames sent at most while waiting for the capture pipeline.
pub const KEEPALIVE_MAX_FRAMES: u32 = 30;

/// A key frame is asked for when none went out for this many nanoseconds.
pub const KEYFRAME_OVERDUE_NS: u64 = 3_000_000_000;

/// One black key frame is sent early when none was sent before and no frame
/// has gone out yet.
pub open spec fn bootstrap_wanted_spec(already_sent: bool, frames_sent: u64) -> bool {
    !already_sent && frames_sent == 0
}

/// Whether to send the early black key frame (see `bootstrap_wanted_spec`).
pub fn bootstrap_wanted(already_sent: bool, frames_sent: u64) -> (r: bool)
    ensures
        r == bootstrap_wanted_spec(already_sent, frames_sent),
{
    !already_sent && frames_sent == 0
}

/// The bootstrap flag after a check at which `frames_sent` frames had gone
/// out: set once a black frame is sent.
pub open spec fn bootstrap_flag_after(already_sent: bool, frames_sent: u64) -> bool {
    already_sent || bootstrap_wanted_spec(already_sent, frames_sent)
}

/// How many bootstrap black frames a series of checks sends, starting with
/// the flag `flag`; `readings` are the frames sent seen at each check.
pub open spec fn bootstrap_sends(flag: bool, readings: Seq<u64>) -> nat
    decreases readings.len(),
{
    if readings.len() == 0 {
        0
    } else {
        let send: nat = if bootstrap_wanted_spec(flag, readings[0]) {
            1
        } else {
            0
        };
        send + bootstrap_sends(bootstrap_flag_after(flag, readings[0]), readings.drop_first())
    }
}

/// However many times streaming starts on a track, at most one bootstrap
/// black frame is sent over its lifetime, none once the flag is set, and
/// none at a check that saw a frame already sent.
pub proof fn law_bootstrap_at_most_once(flag: bool, readings: Seq<u64>)
    ensures
        bootstrap_sends(flag, readings) <= 1,
        flag ==> bootstrap_sends(flag, readings) == 0,
        readings.len() > 0 && readings[0] > 0 && !flag ==> bootstrap_sends(flag, readings) == bootstrap_sends(
            false,
            readings.drop_first(),
        ),
    decreases readings.len(),
{
    if readings.len() > 0 {
        law_bootstrap_at_most_once(bootstrap_flag_after(flag, readings[0]), readings.drop_first());
    }
}

/// Black keep-alive frames are sent while fewer than five frames went out.
pub fn keepalive_wanted(frames_sent: u64) -> (r: bool)
    ensures
        r == (frames_sent < KEEPALIVE_MIN_FRAMES),
{
    frames_sent < KEEPALIVE_MIN_FRAMES
}

/// Whether the keep-alive loop sends another black frame at round `round`
/// (from zero), having seen `frames_sent` frames sent: at most thirty rounds,
/// and only while the capture pipeline has not taken over.
pub fn keepalive_continue(round: u32, frames_sent: u64) -> (r: bool)
    ensures
        r == (round < KEEPALIVE_MAX_FRAMES && frames_sent < KEEPALIVE_MIN_FRAMES),
{
    round < KEEPALIVE_MAX_FRAMES && frames_sent < KEEPALIVE_MIN_FRAMES
}

/// How many black frames the keep-alive loop sends from round `round` on,
/// `readings[k]` being the frames sent seen at round `round + k`; the loop
/// ends at the first round that does not continue.
pub open spec fn keepalive_sends(round: nat, readings: Seq<u64>) -> nat
    decreases readings.len(),
{
    if readings.len() == 0 || !(round < KEEPALIVE_MAX_FRAMES && readings[0] < KEEPALIVE_MIN_FRAMES) {
        0
    } else {
        1 + keepalive_sends(round + 1, readings.drop_first())
    }
}

/// The keep-alive loop sends at most thirty black frames, and none when it
/// starts after five frames went out.
pub proof fn law_keepalive_bounded(readings: Seq<u64>)
    ensures
        keepalive_sends(0, readings) <= KEEPALIVE_MAX_FRAMES,
        readings.len() > 0 && readings[0] >= KEEPALIVE_MIN_FRAMES ==> keepalive_sends(0, readings) == 0,
{
    lemma_keepalive_from(0, readings);
}

proof fn lemma_keepalive_from(round: nat, readings: Seq<u64>)
    requires
        round <= KEEPALIVE_MAX_FRAMES,
    ensures
        keepalive_sends(round, readings) <= KEEPALIVE_MAX_FRAMES - round,
    decreases readings.len(),
{
    if readings.len() > 0 && round < KEEPALIVE_MAX_FRAMES && readings[0] < KEEPALIVE_MIN_FRAMES {
        lemma_keepalive_from(round + 1, readings.drop_first());
    }
}

/// The whole frame rate of the adapted settings: the halved rate given
/// (`poor_fps_whole`) when poor, 30 when good, 60 when excellent.
pub open spec fn adapted_fps_whole(q: NetworkQuality, poor_fps_whole: u32) -> u32 {
    match q {
        NetworkQuality::Poor => poor_fps_whole,
        NetworkQuality::Good => 30,
        NetworkQuality::Excellent => 60,
    }
}

/// The settings one adaptation round applies: none within ten seconds of the
/// last change; otherwise the adapted settings (see `adapted_config_spec`)
/// when they differ enough from the current ones (see `change_wanted_spec`).
pub open spec fn adaptation_step_spec(
    since_change_ns: u64,
    q: NetworkQuality,
    cur: VideoEncoderConfig,
    poor_fps_bits: u32,
    poor_fps_whole: u32,
    cur_fps: u32,
) -> Option<VideoEncoderConfig> {
    let new = adapted_config_spec(q, cur, poor_fps_bits);
    if since_change_ns < ADAPT_COOLDOWN_NS {
        None
    } else if change_wanted_spec(new, cur, adapted_fps_whole(q, poor_fps_whole), cur_fps) {
        Some(new)
    } else {
        None
    }
}

/// One adaptation round (see `adaptation_step_spec`): `poor_fps_bits` is the
/// halved frame rate (at least 10) as `f32` bits, `poor_fps_whole` its whole
/// part, and `cur_fps` the whole part of the current frame rate. `None`
/// leaves the encoders and their settings as they are.
pub fn adaptation_step(
    since_change_ns: u64,
    q: NetworkQuality,
    cur: &VideoEncoderConfig,
    poor_fps_bits: u32,
    poor_fps_whole: u32,
    cur_fps: u32,
) -> (r: Option<VideoEncoderConfig>)
    requires
        since_change_ns >= ADAPT_COOLDOWN_NS ==> comparable(
            adapted_config_spec(q, *cur, poor_fps_bits).bitrate,
            cur.bitrate,
            15,
        ) && comparable(adapted_fps_whole(q, poor_fps_whole), cur_fps, 20),
    ensures
        r == adaptation_step_spec(since_change_ns, q, *cur, poor_fps_bits, poor_fps_whole, cur_fps),
{
    if !adaptation_allowed(since_change_ns) {
        return None;
    }
    let new = adapted_config(q, cur, poor_fps_bits);
    let new_fps: u32 = match q {
        NetworkQuality::Poor => poor_fps_whole,
        NetworkQuality::Good => 30,
        NetworkQuality::Excellent => 60,
    };
    if change_wanted(&new, cur, new_fps, cur_fps) {
        Some(new)
    } else {
        None
    }
}

/// Within ten seconds of the last change an adaptation round applies
/// nothing, whatever the network quality.
pub proof fn law_cooldown_keeps_settings(
    since_change_ns: u64,
    q: NetworkQuality,
    cur: VideoEncoderConfig,
    poor_fps_bits: u32,
    poor_fps_whole: u32,
    cur_fps: u32,
)
    requires
        since_change_ns < ADAPT_COOLDOWN_NS,
    ensures
        adaptation_step_spec(since_change_ns, q, cur, poor_fps_bits, poor_fps_whole, cur_fps) is None,
{
}

/// Settings are adapted at most every ten seconds.
pub const ADAPT_COOLDOWN_NS: u64 = 10_000_000_000;

/// Whether settings may be adapted, `since_change_ns` nanoseconds after the
/// last change.
pub fn adaptation_allowed(since_change_ns: u64) -> (r: bool)
    ensures
        r == (since_change_ns >= ADAPT_COOLDOWN_NS),
{
    since_change_ns >= ADAPT_COOLDOWN_NS
}

/// A key frame is overdue when none was ever sent, or the last one went out
/// more than three seconds ago.
pub fn keyframe_overdue(since_last_keyframe_ns: Option<u64>) -> (r: bool)
    ensures
        r == match since_last_keyframe_ns {
            None => true,
            Some(ns) => ns > KEYFRAME_OVERDUE_NS,
        },
{
    match since_last_keyframe_ns {
        None => true,
        Some(ns) => ns > KEYFRAME_OVERDUE_NS,
    }
}

/// An all-zero (black, transparent) RGBA frame of the configured size.
pub fn blank_rgba(config: &VideoEncoderConfig) -> (r: Vec<u8>)
    requires
        config.width * config.height * 4 <= u32::MAX,
    ensures
        r@.len() == config.width * config.height * 4,
        forall|i: int| 0 <= i < r@.len() ==> r@[i] == 0,
{
    let n = config.width * config.height * 4;
    let mut v: Vec<u8> = Vec::new();
    let mut i: u32 = 0;
    while i < n
        invariant
            i <= n,
            v@.len() == i,
            forall|k: int| 0 <= k < v@.len() ==> v@[k] == 0,
        decreases n - i,
    {
        v.push(0);
        i = i + 1;
    }
    v
}

} // verus!

//! Video sources: a native source fed with raw frames, and an encoded source
//! that injects pre-encoded frames through a passthrough encoder.
use crate::passthrough_video_source::{
    EncodedFrameView, EncodedVideoFrame as PassthroughEncodedFrame, EncoderView,
    PassthroughEncoderFactory, PassthroughEncoderHandle, PassthroughError,
};
use crate::video_frame::VideoFrame;
use vstd::prelude::*;

verus! {

#[derive(Debug, Clone, Copy, PartialEq, Eq, Structural)]
pub struct VideoResolution {
    pub width: u32,
    pub height: u32,
}

impl Default for VideoResolution {
    /// 720p.
    fn default() -> (r: Self)
        ensures
            r == (VideoResolution { width: 1280, height: 720 }),
    {
        VideoResolution { width: 1280, height: 720 }
    }
}

/// Video codec type.
#[derive(Debug, Clone, Copy, PartialEq, Eq, Structural)]
pub enum VideoCodecType {
    H264,
    VP8,
    VP9,
    AV1,
}

/// Codec parameters.
#[derive(Debug, Clone)]
pub struct CodecParameters {
    pub codec: VideoCodecType,
    pub profile: Option<String>,
    pub level: Option<String>,
}

impl Default for CodecParameters {
    fn default() -> (r: Self)
        ensures
            r.codec == VideoCodecType::H264,
            r.profile is None,
            r.level is None,
    {
        CodecParameters { codec: VideoCodecType::H264, profile: None, level: None }
    }
}

/// The mathematical value of an encoded frame of a given codec.
pub struct CodecFrameView {
    pub data: Seq<u8>,
    pub rtp_timestamp: u32,
    pub capture_time_ms: i64,
    pub ntp_time_ms: i64,
    pub is_keyframe: bool,
    pub width: u32,
    pub height: u32,
    pub codec: VideoCodecType,
}

impl CodecFrameView {
    /// The frame as the passthrough encoder takes it: the same fields but the codec.
    pub open spec fn passthrough(self) -> EncodedFrameView {
        EncodedFrameView {
            data: self.data,
            rtp_timestamp: self.rtp_timestamp,
            capture_time_ms: self.capture_time_ms,
            ntp_time_ms: self.ntp_time_ms,
            is_keyframe: self.is_keyframe,
            width: self.width,
            height: self.height,
        }
    }
}

/// An encoded video frame.
#[derive(Debug, Clone)]
pub struct EncodedVideoFrame {
    pub data: Vec<u8>,
    pub rtp_timestamp: u32,
    pub capture_time_ms: i64,
    pub ntp_time_ms: i64,
    pub is_keyframe: bool,
    pub width: u32,
    pub height: u32,
    pub codec: VideoCodecType,
}

impl View for EncodedVideoFrame {
    type V = CodecFrameView;

    open spec fn view(&self) -> CodecFrameView {
        CodecFrameView {
            data: self.data@,
            rtp_timestamp: self.rtp_timestamp,
            capture_time_ms: self.capture_time_ms,
            ntp_time_ms: self.ntp_time_ms,
            is_keyframe: self.is_keyframe,
            width: self.width,
            height: self.height,
            codec: self.codec,
        }
    }
}

impl EncodedVideoFrame {
    /// Creates a frame; its NTP time defaults to the capture time.
    pub fn new(
        data: Vec<u8>,
        rtp_timestamp: u32,
        capture_time_ms: i64,
        is_keyframe: bool,
        width: u32,
        height: u32,
        codec: VideoCodecType,
    ) -> (r: Self)
        ensures
            r@ == (CodecFrameView {
                data: data@,
                rtp_timestamp,
                capture_time_ms,
                ntp_time_ms: capture_time_ms,
                is_keyframe,
                width,
                height,
                codec,
            }),
    {
        EncodedVideoFrame {
            data,
            rtp_timestamp,
            capture_time_ms,
            ntp_time_ms: capture_time_ms,
            is_keyframe,
            width,
            height,
            codec,
        }
    }

    /// Creates a keyframe.
    pub fn keyframe(
        data: Vec<u8>,
        rtp_timestamp: u32,
        capture_time_ms: i64,
        width: u32,
        height: u32,
        codec: VideoCodecType,
    ) -> (r: Self)
        ensures
            r@ == (CodecFrameView {
                data: data@,
                rtp_timestamp,
                capture_time_ms,
                ntp_time_ms: capture_time_ms,
                is_keyframe: true,
                width,
                height,
                codec,
            }),
    {
        Self::new(data, rtp_timestamp, capture_time_ms, true, width, height, codec)
    }

    /// Creates a delta frame (not a keyframe).
    pub fn delta_frame(
        data: Vec<u8>,
        rtp_timestamp: u32,
        capture_time_ms: i64,
        width: u32,
        height: u32,
        codec: VideoCodecType,
    ) -> (r: Self)
        ensures
            r@ == (CodecFrameView {
                data: data@,
                rtp_timestamp,
                capture_time_ms,
                ntp_time_ms: capture_time_ms,
                is_keyframe: false,
                width,
                height,
                codec,
            }),
    {
        Self::new(data, rtp_timestamp, capture_time_ms, false, width, height, codec)
    }

    /// A copy for the passthrough encoder, with its own buffer.
    pub fn to_passthrough(&self) -> (r: PassthroughEncodedFrame)
        ensures
            r@ == self@.passthrough(),
    {
        let data = self.data.clone();
        proof {
            assert(data@ =~= self.data@);
        }
        let mut r = PassthroughEncodedFrame::new(
            data,
            self.rtp_timestamp,
            self.capture_time_ms,
            self.is_keyframe,
            self.width,
            self.height,
        );
        r.ntp_time_ms = self.ntp_time_ms;
        r
    }
}

/// Where an encoded source stands in its life.
#[derive(Debug, Clone, Copy, PartialEq, Eq, Structural)]
pub enum SourceState {
    /// Constructed; discovery has not probed yet.
    Uninitialized,
    /// Discovery probed and found no encoder yet.
    Discovering,
    /// An encoder is bound: frames can be pushed.
    Ready,
    /// Shut down: encoder and factory are released.
    Closed,
}

/// The mathematical value of an encoded source.
pub struct SourceView {
    pub width: u32,
    pub height: u32,
    pub codec: VideoCodecType,
    /// How many encoders the factory has created; `None` once it is released.
    pub factory: Option<nat>,
    /// Whether discovery has probed the factory.
    pub probed: bool,
    /// The encoder bound to the source.
    pub encoder: Option<EncoderView>,
}

impl SourceView {
    pub open spec fn state(self) -> SourceState {
        if self.factory is None {
            SourceState::Closed
        } else if self.encoder is Some {
            SourceState::Ready
        } else if self.probed {
            SourceState::Discovering
        } else {
            SourceState::Uninitialized
        }
    }

    /// The source after one call of `push_frame` with `f`, and the result.
    pub open spec fn push(self, f: CodecFrameView) -> (Self, Result<(), PassthroughError>) {
        match self.encoder {
            None => (self, Err(PassthroughError::NotInitialized)),
            Some(e) => {
                let (e2, r) = e.inject(f.passthrough());
                (SourceView { encoder: Some(e2), ..self }, r)
            },
        }
    }

    /// The source after one probe of the factory by discovery, and the result.
    ///
    /// A bound encoder stays bound: a later encoder of the factory is not
    /// picked up.
    pub open spec fn probe(self) -> (Self, Result<(), PassthroughError>) {
        match self.factory {
            None => (self, Err(PassthroughError::NotInitialized)),
            Some(n) => {
                if self.encoder is Some {
                    (self, Ok(()))
                } else if n == 0 {
                    (SourceView { probed: true, ..self }, Err(PassthroughError::NoEncoder))
                } else {
                    (
                        SourceView {
                            probed: true,
                            encoder: Some(
                                EncoderView {
                                    encoder_id: n as u64,
                                    keyframe_requested: false,
                                    status: 0,
                                    injected: Seq::empty(),
                                },
                            ),
                            ..self
                        },
                        Ok(()),
                    )
                }
            },
        }
    }

    pub open spec fn keyframe_requested(self) -> bool {
        self.encoder matches Some(e) && e.keyframe_requested
    }

    pub open spec fn with_keyframe_request(self) -> Self {
        match self.encoder {
            None => self,
            Some(e) => SourceView { encoder: Some(e.with_keyframe_request()), ..self },
        }
    }

    pub open spec fn without_keyframe_request(self) -> Self {
        match self.encoder {
            None => self,
            Some(e) => SourceView { encoder: Some(e.without_keyframe_request()), ..self },
        }
    }

    pub open spec fn shut_down(self) -> Self {
        SourceView { factory: None, encoder: None, ..self }
    }

    /// The source after the transport had its factory create an encoder.
    pub open spec fn after_negotiation(self) -> Self {
        match self.factory {
            None => self,
            Some(n) => SourceView { factory: Some(n + 1), ..self },
        }
    }

    /// Frames injected and not yet taken by the transport.
    pub open spec fn injected(self) -> Seq<EncodedFrameView> {
        match self.encoder {
            None => Seq::empty(),
            Some(e) => e.injected,
        }
    }
}

/// Encoded video source for injecting pre-encoded frames.
///
/// The producer pushes frames and reads or clears the keyframe request; the
/// transport's side creates encoders through the source's factory, sets the
/// keyframe request, reports the encoder's status and takes injected frames.
/// Sharing between the two is the caller's concern (one lock around the source).
#[derive(Debug)]
pub struct EncodedVideoSource {
    width: u32,
    height: u32,
    codec: VideoCodecType,
    encoder_factory: Option<PassthroughEncoderFactory>,
    probed: bool,
    encoder_handle: Option<PassthroughEncoderHandle>,
}

impl View for EncodedVideoSource {
    type V = SourceView;

    closed spec fn view(&self) -> SourceView {
        SourceView {
            width: self.width,
            height: self.height,
            codec: self.codec,
            factory: match self.encoder_factory {
                None => None,
                Some(f) => Some(f.encoders_created()),
            },
            probed: self.probed,
            encoder: match self.encoder_handle {
                None => None,
                Some(h) => Some(h@),
            },
        }
    }
}

impl EncodedVideoSource {
    /// Creates a source. Only H.264 is accepted; any other codec fails with
    /// `InvalidCodec` and creates no factory.
    pub fn new(codec: VideoCodecType, width: u32, height: u32) -> (r: Result<Self, PassthroughError>)
        ensures
            r is Ok <==> codec == VideoCodecType::H264,
            r is Err ==> r == Err::<Self, PassthroughError>(PassthroughError::InvalidCodec),
            r matches Ok(s) ==> s@ == (SourceView {
                width,
                height,
                codec,
                factory: Some(0),
                probed: false,
                encoder: None,
            }),
    {
        if codec != VideoCodecType::H264 {
            return Err(PassthroughError::InvalidCodec);
        }
        Ok(EncodedVideoSource {
            width,
            height,
            codec,
            encoder_factory: Some(PassthroughEncoderFactory::new()),
            probed: false,
            encoder_handle: None,
        })
    }

    pub fn width(&self) -> (r: u32)
        ensures
            r == self@.width,
    {
        self.width
    }

    pub fn height(&self) -> (r: u32)
        ensures
            r == self@.height,
    {
        self.height
    }

    pub fn codec(&self) -> (r: VideoCodecType)
        ensures
            r == self@.codec,
    {
        self.codec
    }

    pub fn video_resolution(&self) -> (r: VideoResolution)
        ensures
            r == (VideoResolution { width: self@.width, height: self@.height }),
    {
        VideoResolution { width: self.width, height: self.height }
    }

    pub fn state(&self) -> (r: SourceState)
        ensures
            r == self@.state(),
    {
        if self.encoder_factory.is_none() {
            SourceState::Closed
        } else if self.encoder_handle.is_some() {
            SourceState::Ready
        } else if self.probed {
            SourceState::Discovering
        } else {
            SourceState::Uninitialized
        }
    }

    /// One attempt of discovery: asks the factory for its latest encoder and
    /// binds it. `NoEncoder` while the factory has none; `NotInitialized` after
    /// shutdown; `Ok` at once when an encoder is already bound.
    pub fn probe_encoder(&mut self) -> (r: Result<(), PassthroughError>)
        ensures
            (final(self)@, r) == old(self)@.probe(),
    {
        match &self.encoder_factory {
            None => Err(PassthroughError::NotInitialized),
            Some(factory) => {
                if self.encoder_handle.is_some() {
                    return Ok(());
                }
                self.probed = true;
                match factory.get_encoder() {
                    None => Err(PassthroughError::NoEncoder),
                    Some(handle) => {
                        self.encoder_handle = Some(handle);
                        Ok(())
                    },
                }
            },
        }
    }

    /// Pushes a copy of an encoded frame into the bound encoder.
    ///
    /// `NotInitialized` unless an encoder is bound (before discovery found one,
    /// or after shutdown); then as the encoder's `inject_frame`: `InvalidData`
    /// on an empty frame, `EncoderError` while the encoder reports a non-zero
    /// status. The caller keeps its frame untouched.
    pub fn push_frame(&mut self, frame: &EncodedVideoFrame) -> (r: Result<(), PassthroughError>)
        ensures
            (final(self)@, r) == old(self)@.push(frame@),
    {
        match &mut self.encoder_handle {
            None => Err(PassthroughError::NotInitialized),
            Some(encoder) => {
                let copy = frame.to_passthrough();
                encoder.inject_frame(&copy)
            },
        }
    }

    /// Whether a keyframe is requested; false while no encoder is bound.
    pub fn is_keyframe_requested(&self) -> (r: bool)
        ensures
            r == self@.keyframe_requested(),
    {
        match &self.encoder_handle {
            None => false,
            Some(encoder) => encoder.is_keyframe_requested(),
        }
    }

    /// Clears the keyframe request.
    pub fn clear_keyframe_request(&mut self)
        ensures
            final(self)@ == old(self)@.without_keyframe_request(),
    {
        match &mut self.encoder_handle {
            None => {},
            Some(encoder) => encoder.clear_keyframe_request(),
        }
    }

    /// Requests a keyframe; used by the producer and by the transport's
    /// feedback path. Requests before a clear collapse into one.
    pub fn request_keyframe(&mut self)
        ensures
            final(self)@ == old(self)@.with_keyframe_request(),
    {
        match &mut self.encoder_handle {
            None => {},
            Some(encoder) => encoder.request_keyframe(),
        }
    }

    /// Transport side: negotiation had the factory create an encoder. Returns
    /// its id, or `None` after shutdown. An encoder already bound stays bound.
    pub fn on_encoder_created(&mut self) -> (r: Option<u64>)
        requires
            old(self)@.factory matches Some(n) ==> n < u64::MAX,
        ensures
            final(self)@ == old(self)@.after_negotiation(),
            r == match final(self)@.factory {
                None => None,
                Some(n) => Some(n as u64),
            },
    {
        match &mut self.encoder_factory {
            None => None,
            Some(factory) => Some(factory.create_encoder()),
        }
    }

    /// Transport side: the bound encoder's status (0: it accepts frames).
    pub fn report_encoder_status(&mut self, status: i32)
        ensures
            final(self)@ == match old(self)@.encoder {
                None => old(self)@,
                Some(e) => SourceView { encoder: Some(EncoderView { status, ..e }), ..old(self)@ },
            },
    {
        match &mut self.encoder_handle {
            None => {},
            Some(encoder) => encoder.set_status(status),
        }
    }

    /// Transport side: takes the frames injected so far, oldest first.
    pub fn take_injected_frames(&mut self) -> (r: Vec<PassthroughEncodedFrame>)
        ensures
            r@.map_values(|f: PassthroughEncodedFrame| f@) == old(self)@.injected(),
            final(self)@ == match old(self)@.encoder {
                None => old(self)@,
                Some(e) => SourceView {
                    encoder: Some(EncoderView { injected: Seq::empty(), ..e }),
                    ..old(self)@
                },
            },
    {
        match &mut self.encoder_handle {
            None => {
                let r = Vec::new();
                proof {
                    assert(r@.map_values(|f: PassthroughEncodedFrame| f@) =~= Seq::<
                        EncodedFrameView,
                    >::empty());
                }
                r
            },
            Some(encoder) => encoder.take_injected(),
        }
    }

    /// Releases the encoder and the factory; every later push fails with
    /// `NotInitialized`.
    pub fn shutdown(&mut self)
        ensures
            final(self)@ == old(self)@.shut_down(),
    {
        self.encoder_handle = None;
        self.encoder_factory = None;
    }
}

/// A source of raw frames: frames captured by the application are handed to
/// the transport, which takes the latest one at its own cadence.
#[derive(Debug)]
pub struct NativeVideoSource {
    resolution: VideoResolution,
    latest: Option<VideoFrame>,
}

impl NativeVideoSource {
    pub closed spec fn resolution(&self) -> VideoResolution {
        self.resolution
    }

    /// The frame waiting for the transport, if any.
    pub closed spec fn pending(&self) -> Option<VideoFrame> {
        self.latest
    }

    pub fn new(resolution: VideoResolution) -> (r: Self)
        ensures
            r.resolution() == resolution,
            r.pending() is None,
    {
        NativeVideoSource { resolution, latest: None }
    }

    /// Hands a frame to the transport; it replaces a frame not yet taken.
    pub fn capture_frame(&mut self, frame: VideoFrame)
        ensures
            final(self).resolution() == old(self).resolution(),
            final(self).pending() == Some(frame),
    {
        self.latest = Some(frame);
    }

    /// Transport side: takes the latest frame, if one came since the last take.
    pub fn take_frame(&mut self) -> (r: Option<VideoFrame>)
        ensures
            r == old(self).pending(),
            final(self).resolution() == old(self).resolution(),
            final(self).pending() is None,
    {
        self.latest.take()
    }

    pub fn video_resolution(&self) -> (r: VideoResolution)
        ensures
            r == self.resolution(),
    {
        self.resolution
    }
}

impl Default for NativeVideoSource {
    fn default() -> (r: Self)
        ensures
            r.resolution() == (VideoResolution { width: 1280, height: 720 }),
            r.pending() is None,
    {
        Self::new(VideoResolution::default())
    }
}

/// A video source of either kind.
#[non_exhaustive]
#[derive(Debug)]
pub enum RtcVideoSource {
    Native(NativeVideoSource),
    Encoded(EncodedVideoSource),
}

impl RtcVideoSource {
    pub fn video_resolution(&self) -> (r: VideoResolution)
        ensures
            r == match self {
                RtcVideoSource::Native(s) => s.resolution(),
                RtcVideoSource::Encoded(s) => VideoResolution { width: s@.width, height: s@.height },
            },
    {
        match self {
            RtcVideoSource::Native(s) => s.video_resolution(),
            RtcVideoSource::Encoded(s) => s.video_resolution(),
        }
    }
}

/// The source after `push_frame` with each of `frames` in turn.
pub open spec fn push_all(m: SourceView, frames: Seq<CodecFrameView>) -> SourceView
    decreases frames.len(),
{
    if frames.len() == 0 {
        m
    } else {
        push_all(m, frames.drop_last()).push(frames.last()).0
    }
}

/// The frames among `frames` that hold data, as the encoder takes them, in order.
pub open spec fn accepted(frames: Seq<CodecFrameView>) -> Seq<EncodedFrameView>
    decreases frames.len(),
{
    if frames.len() == 0 {
        Seq::empty()
    } else if frames.last().data.len() == 0 {
        accepted(frames.drop_last())
    } else {
        accepted(frames.drop_last()).push(frames.last().passthrough())
    }
}

/// Frames pushed while the source is ready reach the encoder in the order in
/// which they were pushed, each as it was given; frames without data are left
/// out, and nothing gets through while the encoder reports a non-zero status.
pub proof fn lemma_push_keeps_order(m: SourceView, frames: Seq<CodecFrameView>)
    requires
        m.state() == SourceState::Ready,
    ensures
        push_all(m, frames).state() == SourceState::Ready,
        push_all(m, frames).encoder->0.status == m.encoder->0.status,
        push_all(m, frames).injected() == m.injected() + if m.encoder->0.status == 0 {
            accepted(frames)
        } else {
            Seq::empty()
        },
    decreases frames.len(),
{
    if frames.len() == 0 {
        assert(m.injected() + Seq::<EncodedFrameView>::empty() =~= m.injected());
        if m.encoder->0.status == 0 {
            assert(accepted(frames) =~= Seq::<EncodedFrameView>::empty());
        }
    } else {
        lemma_push_keeps_order(m, frames.drop_last());
        let before = push_all(m, frames.drop_last());
        if m.encoder->0.status == 0 && frames.last().data.len() > 0 {
            assert(before.push(frames.last()).0.injected() =~= m.injected() + accepted(
                frames.drop_last(),
            ).push(frames.last().passthrough()));
        }
    }
}

/// A frame without data never reaches the encoder; once the source is ready,
/// pushing it fails with `InvalidData`.
pub proof fn lemma_empty_frame_rejected(m: SourceView, f: CodecFrameView)
    requires
        f.data.len() == 0,
    ensures
        m.push(f).0 == m,
        m.state() == SourceState::Ready ==> m.push(f).1 == Err::<(), PassthroughError>(
            PassthroughError::InvalidData,
        ),
{
}

/// Before discovery has bound an encoder, and after shutdown, a push changes
/// nothing and fails with `NotInitialized`.
pub proof fn lemma_push_needs_encoder(m: SourceView, f: CodecFrameView)
    ensures
        m.state() == SourceState::Uninitialized || m.state() == SourceState::Discovering ==> m.push(f)
            == (m, Err::<(), PassthroughError>(PassthroughError::NotInitialized)),
        m.shut_down().push(f) == (m.shut_down(), Err::<(), PassthroughError>(
            PassthroughError::NotInitialized,
        )),
{
}

/// Two keyframe requests without a clear between them leave the source as one does.
pub proof fn lemma_keyframe_request_idempotent(m: SourceView)
    ensures
        m.with_keyframe_request().with_keyframe_request() == m.with_keyframe_request(),
{
}

/// Right after a clear, no keyframe is requested.
pub proof fn lemma_clear_then_not_requested(m: SourceView)
    ensures
        !m.without_keyframe_request().keyframe_requested(),
{
}

} // verus!

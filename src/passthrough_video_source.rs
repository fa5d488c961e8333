//! Injection of pre-encoded H.264 frames.
//!
//! An encoder of the transport is reached through a `PassthroughEncoderHandle`:
//! it takes already-encoded frames (a copy of each, in the order given) and
//! carries the one-bit keyframe request shared by the producer and the
//! transport's feedback path.
use vstd::prelude::*;

verus! {

/// The mathematical value of an encoded frame.
pub struct EncodedFrameView {
    pub data: Seq<u8>,
    pub rtp_timestamp: u32,
    pub capture_time_ms: i64,
    pub ntp_time_ms: i64,
    pub is_keyframe: bool,
    pub width: u32,
    pub height: u32,
}

/// A pre-encoded H.264 frame ready for injection.
#[derive(Debug, Clone)]
pub struct EncodedVideoFrame {
    /// The encoded H.264 data (Annex-B NAL units).
    pub data: Vec<u8>,
    /// RTP timestamp (90 kHz clock, wrapping).
    pub rtp_timestamp: u32,
    /// Capture time in milliseconds.
    pub capture_time_ms: i64,
    /// NTP time in milliseconds.
    pub ntp_time_ms: i64,
    /// Whether this frame is a keyframe (IDR frame).
    pub is_keyframe: bool,
    /// Frame width in pixels.
    pub width: u32,
    /// Frame height in pixels.
    pub height: u32,
}

impl View for EncodedVideoFrame {
    type V = EncodedFrameView;

    open spec fn view(&self) -> EncodedFrameView {
        EncodedFrameView {
            data: self.data@,
            rtp_timestamp: self.rtp_timestamp,
            capture_time_ms: self.capture_time_ms,
            ntp_time_ms: self.ntp_time_ms,
            is_keyframe: self.is_keyframe,
            width: self.width,
            height: self.height,
        }
    }
}

impl EncodedVideoFrame {
    /// Creates a frame; its NTP time defaults to the capture time.
    pub fn new(
        data: Vec<u8>,
        rtp_timestamp: u32,
        capture_time_ms: i64,
        is_keyframe: bool,
        width: u32,
        height: u32,
    ) -> (r: Self)
        ensures
            r@ == (EncodedFrameView {
                data: data@,
                rtp_timestamp,
                capture_time_ms,
                ntp_time_ms: capture_time_ms,
                is_keyframe,
                width,
                height,
            }),
    {
        EncodedVideoFrame {
            data,
            rtp_timestamp,
            capture_time_ms,
            ntp_time_ms: capture_time_ms,
            is_keyframe,
            width,
            height,
        }
    }

    /// Creates a keyframe.
    pub fn keyframe(
        data: Vec<u8>,
        rtp_timestamp: u32,
        capture_time_ms: i64,
        width: u32,
        height: u32,
    ) -> (r: Self)
        ensures
            r@ == (EncodedFrameView {
                data: data@,
                rtp_timestamp,
                capture_time_ms,
                ntp_time_ms: capture_time_ms,
                is_keyframe: true,
                width,
                height,
            }),
    {
        Self::new(data, rtp_timestamp, capture_time_ms, true, width, height)
    }

    /// Creates a delta frame (not a keyframe).
    pub fn delta_frame(
        data: Vec<u8>,
        rtp_timestamp: u32,
        capture_time_ms: i64,
        width: u32,
        height: u32,
    ) -> (r: Self)
        ensures
            r@ == (EncodedFrameView {
                data: data@,
                rtp_timestamp,
                capture_time_ms,
                ntp_time_ms: capture_time_ms,
                is_keyframe: false,
                width,
                height,
            }),
    {
        Self::new(data, rtp_timestamp, capture_time_ms, false, width, height)
    }

    /// A copy of the frame that owns its own buffer.
    pub fn copy(&self) -> (r: Self)
        ensures
            r@ == self@,
    {
        let data = self.data.clone();
        proof {
            assert(data@ =~= self.data@);
        }
        EncodedVideoFrame {
            data,
            rtp_timestamp: self.rtp_timestamp,
            capture_time_ms: self.capture_time_ms,
            ntp_time_ms: self.ntp_time_ms,
            is_keyframe: self.is_keyframe,
            width: self.width,
            height: self.height,
        }
    }
}

/// Why an operation on the passthrough path failed.
#[derive(Debug, Clone, Copy, PartialEq, Eq, Structural)]
pub enum PassthroughError {
    /// The encoder is not initialized (no encoder bound, or the source is shut down).
    NotInitialized,
    /// The frame holds no data.
    InvalidData,
    /// The codec is not the one the passthrough path accepts.
    InvalidCodec,
    /// The encoder refused the frame with this code.
    EncoderError(i32),
    /// No encoder is available yet.
    NoEncoder,
    /// Discovery used up its attempts without finding an encoder.
    DiscoveryTimeout,
}

/// What an encoder of the transport holds, as seen through its handle.
pub struct EncoderView {
    /// Which instance of the factory this encoder is (1 for the first).
    pub encoder_id: u64,
    pub keyframe_requested: bool,
    /// The status the transport reports for the encoder; 0 means it accepts frames.
    pub status: i32,
    /// Frames injected and not yet taken by the transport, oldest first.
    pub injected: Seq<EncodedFrameView>,
}

impl EncoderView {
    /// The encoder after one call of `inject_frame` with `f`, and the result.
    pub open spec fn inject(self, f: EncodedFrameView) -> (Self, Result<(), PassthroughError>) {
        if f.data.len() == 0 {
            (self, Err(PassthroughError::InvalidData))
        } else if self.status != 0 {
            (self, Err(PassthroughError::EncoderError(self.status)))
        } else {
            (EncoderView { injected: self.injected.push(f), ..self }, Ok(()))
        }
    }

    pub open spec fn with_keyframe_request(self) -> Self {
        EncoderView { keyframe_requested: true, ..self }
    }

    pub open spec fn without_keyframe_request(self) -> Self {
        EncoderView { keyframe_requested: false, ..self }
    }
}

/// A handle to an encoder of the transport.
///
/// The producer injects frames and reads or clears the keyframe request; the
/// transport sets the request, reports the encoder's status and takes the
/// injected frames.
#[derive(Debug)]
pub struct PassthroughEncoderHandle {
    encoder_id: u64,
    keyframe_requested: bool,
    status: i32,
    injected: Vec<EncodedVideoFrame>,
}

impl View for PassthroughEncoderHandle {
    type V = EncoderView;

    closed spec fn view(&self) -> EncoderView {
        EncoderView {
            encoder_id: self.encoder_id,
            keyframe_requested: self.keyframe_requested,
            status: self.status,
            injected: self.injected@.map_values(|f: EncodedVideoFrame| f@),
        }
    }
}

impl PassthroughEncoderHandle {
    /// A handle on the encoder instance `encoder_id`, freshly created by the
    /// transport: no request pending, status 0, nothing injected.
    pub fn new(encoder_id: u64) -> (r: Self)
        ensures
            r@ == (EncoderView {
                encoder_id,
                keyframe_requested: false,
                status: 0,
                injected: Seq::empty(),
            }),
    {
        let r = PassthroughEncoderHandle {
            encoder_id,
            keyframe_requested: false,
            status: 0,
            injected: Vec::new(),
        };
        proof {
            assert(r@.injected =~= Seq::<EncodedFrameView>::empty());
        }
        r
    }

    /// Which instance of the factory this handle is bound to.
    pub fn encoder_id(&self) -> (r: u64)
        ensures
            r == self@.encoder_id,
    {
        self.encoder_id
    }

    /// Injects a copy of an encoded frame.
    ///
    /// Fails with `InvalidData` on an empty frame and with `EncoderError` while
    /// the encoder reports a non-zero status; otherwise the copy is queued for
    /// the transport after the frames injected before it.
    pub fn inject_frame(&mut self, frame: &EncodedVideoFrame) -> (r: Result<(), PassthroughError>)
        ensures
            (final(self)@, r) == old(self)@.inject(frame@),
    {
        if frame.data.len() == 0 {
            return Err(PassthroughError::InvalidData);
        }
        if self.status != 0 {
            return Err(PassthroughError::EncoderError(self.status));
        }
        let ghost before = self.injected@;
        let copy = frame.copy();
        self.injected.push(copy);
        proof {
            assert(self.injected@.map_values(|f: EncodedVideoFrame| f@) =~= before.map_values(
                |f: EncodedVideoFrame| f@,
            ).push(frame@));
        }
        Ok(())
    }

    /// Whether the receiver asked for a keyframe and the request is not cleared.
    pub fn is_keyframe_requested(&self) -> (r: bool)
        ensures
            r == self@.keyframe_requested,
    {
        self.keyframe_requested
    }

    /// Clears the keyframe request (after a keyframe was sent).
    pub fn clear_keyframe_request(&mut self)
        ensures
            final(self)@ == old(self)@.without_keyframe_request(),
    {
        self.keyframe_requested = false;
    }

    /// Requests a keyframe; requests made before a clear collapse into one.
    pub fn request_keyframe(&mut self)
        ensures
            final(self)@ == old(self)@.with_keyframe_request(),
    {
        self.keyframe_requested = true;
    }

    /// The transport reports the encoder's status; 0 means it accepts frames.
    pub fn set_status(&mut self, status: i32)
        ensures
            final(self)@ == (EncoderView { status, ..old(self)@ }),
    {
        self.status = status;
    }

    /// The transport takes the injected frames, oldest first.
    pub fn take_injected(&mut self) -> (r: Vec<EncodedVideoFrame>)
        ensures
            r@.map_values(|f: EncodedVideoFrame| f@) == old(self)@.injected,
            final(self)@ == (EncoderView { injected: Seq::empty(), ..old(self)@ }),
    {
        let r = self.injected.split_off(0);
        proof {
            assert(self.injected@.map_values(|f: EncodedVideoFrame| f@) =~= Seq::<
                EncodedFrameView,
            >::empty());
        }
        r
    }
}

/// Creates passthrough encoders; the transport asks it for one during
/// negotiation, and may ask again after a renegotiation.
#[derive(Debug)]
pub struct PassthroughEncoderFactory {
    created: u64,
}

impl PassthroughEncoderFactory {
    /// How many encoders the transport has had this factory create.
    pub closed spec fn encoders_created(&self) -> nat {
        self.created as nat
    }

    /// A factory that has created no encoder yet.
    pub fn new() -> (r: Self)
        ensures
            r.encoders_created() == 0,
    {
        PassthroughEncoderFactory { created: 0 }
    }

    /// Creates a new encoder instance, which replaces the previous one as the
    /// latest; returns its id.
    pub fn create_encoder(&mut self) -> (r: u64)
        requires
            old(self).encoders_created() < u64::MAX,
        ensures
            final(self).encoders_created() == old(self).encoders_created() + 1,
            r == final(self).encoders_created(),
    {
        self.created = self.created + 1;
        self.created
    }

    /// A handle on the latest encoder created, or `None` while there is none.
    pub fn get_encoder(&self) -> (r: Option<PassthroughEncoderHandle>)
        ensures
            self.encoders_created() == 0 ==> r is None,
            self.encoders_created() > 0 ==> (r matches Some(h) && h@ == (EncoderView {
                encoder_id: self.encoders_created() as u64,
                keyframe_requested: false,
                status: 0,
                injected: Seq::empty(),
            })),
    {
        if self.created == 0 {
            None
        } else {
            Some(PassthroughEncoderHandle::new(self.created))
        }
    }
}

impl Default for PassthroughEncoderFactory {
    fn default() -> (r: Self)
        ensures
            r.encoders_created() == 0,
    {
        Self::new()
    }
}

} // verus!

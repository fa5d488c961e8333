//! Capture sessions: open a device, start and stop capture, and hand the
//! frames the driver delivers to one consumer stream, in order.
//!
//! A session has at most one registered sink. Registering again replaces the
//! sink, so an earlier stream receives nothing more ("last register wins").
//! Stopping deregisters the sink before it returns: no frame is delivered to
//! any stream of the session after that.
use crate::video_frame::VideoFrame;
use std::collections::VecDeque;
use vstd::prelude::*;

verus! {

/// The mathematical value of a capture device.
pub struct VideoDeviceView {
    pub index: i32,
    pub name: Seq<char>,
    pub unique_id: Seq<char>,
    pub product_id: Seq<char>,
}

/// A capture device, as one enumeration of the host's devices found it.
#[derive(Debug, Clone)]
pub struct VideoDevice {
    index: i32,
    name: String,
    unique_id: String,
    product_id: String,
}

impl View for VideoDevice {
    type V = VideoDeviceView;

    closed spec fn view(&self) -> VideoDeviceView {
        VideoDeviceView {
            index: self.index,
            name: self.name@,
            unique_id: self.unique_id@,
            product_id: self.product_id@,
        }
    }
}

impl VideoDevice {
    pub fn new(index: i32, name: String, unique_id: String, product_id: String) -> (r: Self)
        ensures
            r@ == (VideoDeviceView {
                index,
                name: name@,
                unique_id: unique_id@,
                product_id: product_id@,
            }),
    {
        VideoDevice { index, name, unique_id, product_id }
    }

    pub fn index(&self) -> (r: i32)
        ensures
            r == self@.index,
    {
        self.index
    }

    pub fn name(&self) -> (r: String)
        ensures
            r@ == self@.name,
    {
        self.name.clone()
    }

    pub fn unique_id(&self) -> (r: String)
        ensures
            r@ == self@.unique_id,
    {
        self.unique_id.clone()
    }

    pub fn product_id(&self) -> (r: String)
        ensures
            r@ == self@.product_id,
    {
        self.product_id.clone()
    }
}

/// The mathematical value of a capture format request.
pub struct CapabilityView {
    pub width: i32,
    pub height: i32,
    pub max_fps: i32,
    pub interlaced: bool,
}

/// A requested capture format. The driver may substitute the nearest format
/// it supports, and does not say which it granted.
#[derive(Debug, Clone, Copy, PartialEq, Eq, Structural)]
pub struct VideoCaptureCapability {
    width: i32,
    height: i32,
    max_fps: i32,
    interlaced: bool,
}

impl View for VideoCaptureCapability {
    type V = CapabilityView;

    closed spec fn view(&self) -> CapabilityView {
        CapabilityView {
            width: self.width,
            height: self.height,
            max_fps: self.max_fps,
            interlaced: self.interlaced,
        }
    }
}

impl VideoCaptureCapability {
    pub fn new(width: i32, height: i32, max_fps: i32, interlaced: bool) -> (r: Self)
        ensures
            r@ == (CapabilityView { width, height, max_fps, interlaced }),
    {
        VideoCaptureCapability { width, height, max_fps, interlaced }
    }

    pub fn set_width(self, width: i32) -> (r: Self)
        ensures
            r@ == (CapabilityView { width, ..self@ }),
    {
        VideoCaptureCapability { width, ..self }
    }

    pub fn set_height(self, height: i32) -> (r: Self)
        ensures
            r@ == (CapabilityView { height, ..self@ }),
    {
        VideoCaptureCapability { height, ..self }
    }

    pub fn set_max_fps(self, max_fps: i32) -> (r: Self)
        ensures
            r@ == (CapabilityView { max_fps, ..self@ }),
    {
        VideoCaptureCapability { max_fps, ..self }
    }

    pub fn set_interlaced(self, interlaced: bool) -> (r: Self)
        ensures
            r@ == (CapabilityView { interlaced, ..self@ }),
    {
        VideoCaptureCapability { interlaced, ..self }
    }

    pub fn width(&self) -> (r: i32)
        ensures
            r == self@.width,
    {
        self.width
    }

    pub fn height(&self) -> (r: i32)
        ensures
            r == self@.height,
    {
        self.height
    }

    pub fn max_fps(&self) -> (r: i32)
        ensures
            r == self@.max_fps,
    {
        self.max_fps
    }

    pub fn interlaced(&self) -> (r: bool)
        ensures
            r == self@.interlaced,
    {
        self.interlaced
    }
}

impl Default for VideoCaptureCapability {
    /// 640x480 at 30 frames per second, progressive.
    fn default() -> (r: Self)
        ensures
            r@ == (CapabilityView { width: 640, height: 480, max_fps: 30, interlaced: false }),
    {
        VideoCaptureCapability { width: 640, height: 480, max_fps: 30, interlaced: false }
    }
}

/// Where a capture session stands in its life.
#[derive(Debug, Clone, Copy, PartialEq, Eq, Structural)]
pub enum CaptureState {
    /// The device is open; capture has not started.
    Opened,
    /// The driver is capturing.
    Capturing,
    /// Capture is stopped for good.
    Stopped,
}

/// The mathematical value of a frame stream.
pub struct StreamView {
    /// The registration of the session that feeds this stream.
    pub sink_id: u64,
    /// Frames delivered and not yet taken, oldest first.
    pub frames: Seq<VideoFrame>,
    pub closed: bool,
}

impl StreamView {
    /// The stream after a delivery of `frame` (when the session delivers to it).
    pub open spec fn push(self, frame: VideoFrame) -> Self {
        StreamView { frames: self.frames.push(frame), ..self }
    }

    /// The stream after one poll, and the frame it yields.
    pub open spec fn poll(self) -> (Self, Option<VideoFrame>) {
        if self.frames.len() == 0 {
            (self, None)
        } else {
            (StreamView { frames: self.frames.drop_first(), ..self }, Some(self.frames[0]))
        }
    }
}

/// The frames of a capture session, for one consumer, in the order the driver
/// delivered them. The hand-off never blocks the driver: the buffer has no
/// bound. Once closed, the stream drops its buffered frames and every later
/// delivery.
#[derive(Debug)]
pub struct NativeVideoCapturerStream {
    sink_id: u64,
    frames: VecDeque<VideoFrame>,
    closed: bool,
}

impl View for NativeVideoCapturerStream {
    type V = StreamView;

    closed spec fn view(&self) -> StreamView {
        StreamView { sink_id: self.sink_id, frames: self.frames@, closed: self.closed }
    }
}

impl NativeVideoCapturerStream {
    /// The next frame, oldest first; `None` while none is buffered.
    pub fn poll_next(&mut self) -> (r: Option<VideoFrame>)
        ensures
            (final(self)@, r) == old(self)@.poll(),
    {
        let r = self.frames.pop_front();
        proof {
            if old(self)@.frames.len() > 0 {
                assert(self.frames@ =~= old(self)@.frames.drop_first());
            }
        }
        r
    }

    /// Closes the stream: buffered frames are discarded, later ones dropped.
    pub fn close(&mut self)
        ensures
            final(self)@ == (StreamView { frames: Seq::empty(), closed: true, ..old(self)@ }),
    {
        self.frames.clear();
        self.closed = true;
    }

    pub fn is_closed(&self) -> (r: bool)
        ensures
            r == self@.closed,
    {
        self.closed
    }

    /// How many frames are buffered.
    pub fn len(&self) -> (r: usize)
        ensures
            r == self@.frames.len(),
    {
        self.frames.len()
    }
}

/// The mathematical value of a capture session.
pub struct CapturerView {
    pub unique_id: Seq<char>,
    pub state: CaptureState,
    /// The registration whose stream receives frames, if one is registered.
    pub sink: Option<u64>,
    /// How many streams were registered so far; the last has this number.
    pub registrations: nat,
    /// The format of the last successful start.
    pub capability: Option<CapabilityView>,
}

impl CapturerView {
    /// Whether a frame the driver delivers now reaches `stream`.
    pub open spec fn delivers_to(self, stream: StreamView) -> bool {
        &&& self.state == CaptureState::Capturing
        &&& self.sink == Some(stream.sink_id)
        &&& !stream.closed
    }

    /// The session after `start` with the driver's status, and the result.
    pub open spec fn start(self, capability: CapabilityView, driver_status: i32) -> (Self, bool) {
        if self.state == CaptureState::Stopped || driver_status != 0 {
            (self, false)
        } else {
            (
                CapturerView {
                    state: CaptureState::Capturing,
                    capability: Some(capability),
                    ..self
                },
                true,
            )
        }
    }

    /// The session after `stop`: deregistered and stopped for good.
    pub open spec fn stop(self) -> Self {
        CapturerView { state: CaptureState::Stopped, sink: None, ..self }
    }

    /// The session after a new registration, and the stream it returns.
    pub open spec fn register(self) -> (Self, StreamView) {
        let id = (self.registrations + 1) as u64;
        (
            CapturerView {
                sink: if self.state == CaptureState::Stopped {
                    None
                } else {
                    Some(id)
                },
                registrations: self.registrations + 1,
                ..self
            },
            StreamView {
                sink_id: id,
                frames: Seq::empty(),
                closed: self.state == CaptureState::Stopped,
            },
        )
    }
}

/// A capture session on one device.
#[derive(Debug)]
pub struct VideoCapturer {
    unique_id: String,
    state: CaptureState,
    sink: Option<u64>,
    registrations: u64,
    capability: Option<VideoCaptureCapability>,
}

impl View for VideoCapturer {
    type V = CapturerView;

    closed spec fn view(&self) -> CapturerView {
        CapturerView {
            unique_id: self.unique_id@,
            state: self.state,
            sink: self.sink,
            registrations: self.registrations as nat,
            capability: match self.capability {
                None => None,
                Some(c) => Some(c@),
            },
        }
    }
}

/// Whether some device of `devices` has this unique id.
pub open spec fn is_available(devices: Seq<VideoDevice>, unique_id: Seq<char>) -> bool {
    exists|i: int| 0 <= i < devices.len() && #[trigger] devices[i]@.unique_id == unique_id
}

impl VideoCapturer {
    /// Opens the device with this unique id among `devices` (the host's
    /// devices as enumerated) and registers a first stream; `None` when no
    /// such device is available.
    pub fn open_device(unique_id: &str, devices: &Vec<VideoDevice>) -> (r: Option<(Self, NativeVideoCapturerStream)>)
        ensures
            r is Some <==> is_available(devices@, unique_id@),
            r matches Some((c, s)) ==> c@ == (CapturerView {
                unique_id: unique_id@,
                state: CaptureState::Opened,
                sink: Some(1),
                registrations: 1,
                capability: None,
            }) && s@ == (StreamView { sink_id: 1, frames: Seq::empty(), closed: false }),
    {
        let wanted = unique_id.to_owned();
        let mut i: usize = 0;
        while i < devices.len()
            invariant
                0 <= i <= devices.len(),
                wanted@ == unique_id@,
                forall|j: int| 0 <= j < i ==> #[trigger] devices@[j]@.unique_id != unique_id@,
            decreases devices.len() - i,
        {
            if devices[i].unique_id == wanted {
                assert(devices@[i as int]@.unique_id == unique_id@);
                let capturer = VideoCapturer {
                    unique_id: wanted,
                    state: CaptureState::Opened,
                    sink: Some(1),
                    registrations: 1,
                    capability: None,
                };
                let stream = NativeVideoCapturerStream {
                    sink_id: 1,
                    frames: VecDeque::new(),
                    closed: false,
                };
                return Some((capturer, stream));
            }
            i = i + 1;
        }
        None
    }

    pub fn state(&self) -> (r: CaptureState)
        ensures
            r == self@.state,
    {
        self.state
    }

    /// The unique id of the device.
    pub fn unique_id(&self) -> (r: String)
        ensures
            r@ == self@.unique_id,
    {
        self.unique_id.clone()
    }

    /// Starts capture at the requested format, given the status the driver
    /// returned for it (0 means success). True when capture runs; a stopped
    /// session does not start again.
    pub fn start(&mut self, capability: VideoCaptureCapability, driver_status: i32) -> (r: bool)
        ensures
            (final(self)@, r) == old(self)@.start(capability@, driver_status),
    {
        if self.state == CaptureState::Stopped || driver_status != 0 {
            return false;
        }
        self.state = CaptureState::Capturing;
        self.capability = Some(capability);
        true
    }

    /// Stops capture: the sink is deregistered before this returns, so no
    /// frame reaches a stream afterwards. True when the driver's status is 0.
    pub fn stop(&mut self, driver_status: i32) -> (r: bool)
        ensures
            final(self)@ == old(self)@.stop(),
            r == (driver_status == 0),
    {
        self.sink = None;
        self.state = CaptureState::Stopped;
        driver_status == 0
    }

    /// Registers a new stream, which replaces the previous one as the sink.
    /// On a stopped session the stream is born closed.
    pub fn register_callback(&mut self) -> (r: NativeVideoCapturerStream)
        requires
            old(self)@.registrations < u64::MAX,
        ensures
            (final(self)@, r@) == old(self)@.register(),
    {
        self.registrations = self.registrations + 1;
        let stopped = self.state == CaptureState::Stopped;
        if stopped {
            self.sink = None;
        } else {
            self.sink = Some(self.registrations);
        }
        NativeVideoCapturerStream {
            sink_id: self.registrations,
            frames: VecDeque::new(),
            closed: stopped,
        }
    }

    /// Deregisters the sink: no stream receives frames until a new registration.
    pub fn unregister_callback(&mut self)
        ensures
            final(self)@ == (CapturerView { sink: None, ..old(self)@ }),
    {
        self.sink = None;
    }

    /// The driver delivers a frame: it is appended to `stream` when `stream`
    /// is the registered sink of this capturing session and is open, and is
    /// dropped otherwise. Never blocks.
    pub fn on_frame(&self, stream: &mut NativeVideoCapturerStream, frame: VideoFrame)
        ensures
            final(stream)@ == if self@.delivers_to(old(stream)@) {
                old(stream)@.push(frame)
            } else {
                old(stream)@
            },
    {
        let registered = match self.sink {
            Some(id) => id == stream.sink_id,
            None => false,
        };
        if self.state == CaptureState::Capturing && registered && !stream.closed {
            stream.frames.push_back(frame);
        }
    }
}

/// After `stop` returns, no frame the driver delivers reaches any stream of
/// the session, and a later start changes nothing: each stream holds only
/// what was delivered before.
pub proof fn lemma_no_delivery_after_stop(
    c: CapturerView,
    stream: StreamView,
    capability: CapabilityView,
    driver_status: i32,
)
    ensures
        !c.stop().delivers_to(stream),
        c.stop().start(capability, driver_status) == (c.stop(), false),
        !c.stop().register().0.delivers_to(stream),
{
}

/// Registering again silences every earlier stream of the session; the new
/// stream receives frames while the session captures.
pub proof fn lemma_last_register_wins(c: CapturerView, earlier: StreamView)
    requires
        earlier.sink_id <= c.registrations,
        c.registrations < u64::MAX,
    ensures
        !c.register().0.delivers_to(earlier),
        c.state == CaptureState::Capturing ==> c.register().0.delivers_to(c.register().1),
{
}

} // verus!

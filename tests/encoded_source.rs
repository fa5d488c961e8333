use passthrough_video::encoder_discovery::{DiscoveryStep, EncoderDiscovery};
use passthrough_video::passthrough_video_source::PassthroughError;
use passthrough_video::video_source::{
    CodecParameters, EncodedVideoFrame, EncodedVideoSource, NativeVideoSource, RtcVideoSource,
    SourceState, VideoCodecType, VideoResolution,
};
use passthrough_video::video_frame::{VideoFrame, VideoRotation};

fn ready_source() -> EncodedVideoSource {
    let mut source = EncodedVideoSource::new(VideoCodecType::H264, 1280, 720).unwrap();
    assert_eq!(source.on_encoder_created(), Some(1));
    assert_eq!(source.probe_encoder(), Ok(()));
    assert_eq!(source.state(), SourceState::Ready);
    source
}

fn frame(data: Vec<u8>, ts: u32, key: bool) -> EncodedVideoFrame {
    EncodedVideoFrame::new(data, ts, 1000 + ts as i64, key, 1280, 720, VideoCodecType::H264)
}

#[test]
fn frames_reach_encoder_in_push_order() {
    let mut source = ready_source();
    let frames = vec![
        frame(vec![0, 0, 0, 1, 0x65], 0, true),
        frame(vec![0, 0, 0, 1, 0x41, 7], 3000, false),
        frame(vec![0, 0, 0, 1, 0x41, 9], 6000, false),
    ];
    for f in &frames {
        assert_eq!(source.push_frame(f), Ok(()));
    }
    let injected = source.take_injected_frames();
    assert_eq!(injected.len(), 3);
    for (got, sent) in injected.iter().zip(frames.iter()) {
        assert_eq!(got.data, sent.data);
        assert_eq!(got.rtp_timestamp, sent.rtp_timestamp);
        assert_eq!(got.capture_time_ms, sent.capture_time_ms);
        assert_eq!(got.ntp_time_ms, sent.ntp_time_ms);
        assert_eq!(got.is_keyframe, sent.is_keyframe);
        assert_eq!(got.width, sent.width);
        assert_eq!(got.height, sent.height);
    }
    assert!(source.take_injected_frames().is_empty());
}

#[test]
fn pushed_frame_is_a_copy() {
    let mut source = ready_source();
    let mut f = frame(vec![1, 2, 3], 90, true);
    f.ntp_time_ms = 555;
    assert_eq!(source.push_frame(&f), Ok(()));
    assert_eq!(f.data, vec![1, 2, 3]);
    f.data[0] = 42;
    f.data.push(4);
    let injected = source.take_injected_frames();
    assert_eq!(injected[0].data, vec![1, 2, 3]);
    assert_eq!(injected[0].ntp_time_ms, 555);
}

#[test]
fn empty_frame_is_invalid_data() {
    let mut source = ready_source();
    let f = frame(Vec::new(), 0, true);
    assert_eq!(source.push_frame(&f), Err(PassthroughError::InvalidData));
    assert!(source.take_injected_frames().is_empty());
    let good = frame(vec![5], 1, false);
    assert_eq!(source.push_frame(&good), Ok(()));
    assert_eq!(source.take_injected_frames().len(), 1);
}

#[test]
fn push_before_initialize_is_not_initialized() {
    let mut source = EncodedVideoSource::new(VideoCodecType::H264, 640, 480).unwrap();
    assert_eq!(source.state(), SourceState::Uninitialized);
    let f = frame(vec![1], 0, true);
    assert_eq!(source.push_frame(&f), Err(PassthroughError::NotInitialized));
    assert_eq!(source.probe_encoder(), Err(PassthroughError::NoEncoder));
    assert_eq!(source.state(), SourceState::Discovering);
    assert_eq!(source.push_frame(&f), Err(PassthroughError::NotInitialized));
    let empty = frame(Vec::new(), 0, true);
    assert_eq!(source.push_frame(&empty), Err(PassthroughError::NotInitialized));
}

#[test]
fn push_after_shutdown_is_not_initialized() {
    let mut source = ready_source();
    source.shutdown();
    assert_eq!(source.state(), SourceState::Closed);
    let f = frame(vec![1, 2], 0, true);
    assert_eq!(source.push_frame(&f), Err(PassthroughError::NotInitialized));
    assert_eq!(source.probe_encoder(), Err(PassthroughError::NotInitialized));
    assert_eq!(source.on_encoder_created(), None);
    assert!(!source.is_keyframe_requested());
}

#[test]
fn two_requests_are_one() {
    let mut once = ready_source();
    let mut twice = ready_source();
    once.request_keyframe();
    twice.request_keyframe();
    twice.request_keyframe();
    assert_eq!(once.is_keyframe_requested(), twice.is_keyframe_requested());
    assert!(twice.is_keyframe_requested());
    twice.clear_keyframe_request();
    once.clear_keyframe_request();
    assert_eq!(once.is_keyframe_requested(), twice.is_keyframe_requested());
    assert!(!twice.is_keyframe_requested());
}

#[test]
fn clear_then_query_is_false() {
    let mut source = ready_source();
    assert!(!source.is_keyframe_requested());
    source.request_keyframe();
    source.clear_keyframe_request();
    assert!(!source.is_keyframe_requested());
    source.clear_keyframe_request();
    assert!(!source.is_keyframe_requested());
}

#[test]
fn keyframe_request_without_encoder_is_false() {
    let mut source = EncodedVideoSource::new(VideoCodecType::H264, 640, 480).unwrap();
    source.request_keyframe();
    assert!(!source.is_keyframe_requested());
}

#[test]
fn other_codecs_are_invalid() {
    assert!(matches!(
        EncodedVideoSource::new(VideoCodecType::VP8, 1920, 1080),
        Err(PassthroughError::InvalidCodec)
    ));
    assert!(matches!(
        EncodedVideoSource::new(VideoCodecType::VP8, 0, 0),
        Err(PassthroughError::InvalidCodec)
    ));
    assert!(matches!(
        EncodedVideoSource::new(VideoCodecType::VP9, 640, 480),
        Err(PassthroughError::InvalidCodec)
    ));
    assert!(matches!(
        EncodedVideoSource::new(VideoCodecType::AV1, 640, 480),
        Err(PassthroughError::InvalidCodec)
    ));
    let s = EncodedVideoSource::new(VideoCodecType::H264, 1920, 1080).unwrap();
    assert_eq!(s.width(), 1920);
    assert_eq!(s.height(), 1080);
    assert_eq!(s.codec(), VideoCodecType::H264);
    assert_eq!(s.video_resolution(), VideoResolution { width: 1920, height: 1080 });
}

#[test]
fn encoder_status_gives_encoder_error() {
    let mut source = ready_source();
    source.report_encoder_status(-3);
    let f = frame(vec![9, 9], 0, true);
    assert_eq!(source.push_frame(&f), Err(PassthroughError::EncoderError(-3)));
    assert!(source.take_injected_frames().is_empty());
    source.report_encoder_status(0);
    assert_eq!(source.push_frame(&f), Ok(()));
}

#[test]
fn bound_encoder_is_not_replaced() {
    let mut source = ready_source();
    assert_eq!(source.on_encoder_created(), Some(2));
    assert_eq!(source.probe_encoder(), Ok(()));
    source.request_keyframe();
    assert!(source.is_keyframe_requested());
    assert_eq!(source.on_encoder_created(), Some(3));
    assert!(source.is_keyframe_requested());
}

#[test]
fn single_attempt_discovery_gives_up_after_one_probe() {
    let mut source = EncodedVideoSource::new(VideoCodecType::H264, 640, 480).unwrap();
    let mut discovery = EncoderDiscovery::new(1, 100);
    let mut probes = 0;
    let mut waited_ms = 0u64;
    let mut last = None;
    while discovery.should_probe() {
        probes += 1;
        match discovery.on_probe(source.probe_encoder()) {
            DiscoveryStep::Wait(ms) => waited_ms += ms,
            step => last = Some(step),
        }
    }
    assert_eq!(probes, 1);
    assert_eq!(discovery.attempts(), 1);
    assert_eq!(waited_ms, 0);
    assert_eq!(last, Some(DiscoveryStep::Failed(PassthroughError::DiscoveryTimeout)));
    assert_eq!(source.state(), SourceState::Discovering);
}

#[test]
fn discovery_finds_encoder_on_second_poll() {
    let mut source = EncodedVideoSource::new(VideoCodecType::H264, 1920, 1080).unwrap();
    let mut discovery = EncoderDiscovery::new(50, 100);
    let mut waited_ms = 0u64;
    let mut probes = 0;
    let mut outcome = None;
    while discovery.should_probe() {
        probes += 1;
        if probes == 2 {
            source.on_encoder_created();
        }
        match discovery.on_probe(source.probe_encoder()) {
            DiscoveryStep::Wait(ms) => waited_ms += ms,
            step => {
                outcome = Some(step);
                break;
            }
        }
    }
    assert_eq!(outcome, Some(DiscoveryStep::Bound));
    assert_eq!(probes, 2);
    assert_eq!(waited_ms, 100);
    assert!(waited_ms <= 300);
    assert!(!discovery.should_probe());
    let key = EncodedVideoFrame::keyframe(vec![0, 0, 0, 1, 0x65, 0x88], 0, 0, 1920, 1080, VideoCodecType::H264);
    assert_eq!(source.push_frame(&key), Ok(()));
    let injected = source.take_injected_frames();
    assert_eq!(injected.len(), 1);
    assert!(injected[0].is_keyframe);
}

#[test]
fn discovery_default_policy() {
    let mut discovery = EncoderDiscovery::default();
    let mut probes = 0;
    let mut waited_ms = 0u64;
    while discovery.should_probe() {
        probes += 1;
        match discovery.on_probe(Err(PassthroughError::NoEncoder)) {
            DiscoveryStep::Wait(ms) => waited_ms += ms,
            step => assert_eq!(step, DiscoveryStep::Failed(PassthroughError::DiscoveryTimeout)),
        }
    }
    assert_eq!(probes, 50);
    assert_eq!(waited_ms, 4900);
}

#[test]
fn discovery_stops_on_other_failure() {
    let mut discovery = EncoderDiscovery::new(5, 10);
    assert_eq!(
        discovery.on_probe(Err(PassthroughError::NotInitialized)),
        DiscoveryStep::Failed(PassthroughError::NotInitialized)
    );
    assert!(!discovery.should_probe());
    let none = EncoderDiscovery::new(0, 10);
    assert!(!none.should_probe());
}

#[test]
fn encoded_frame_constructors() {
    let k = EncodedVideoFrame::keyframe(vec![1], 7, 33, 2, 3, VideoCodecType::VP9);
    assert!(k.is_keyframe);
    assert_eq!(k.ntp_time_ms, 33);
    assert_eq!(k.codec, VideoCodecType::VP9);
    let d = EncodedVideoFrame::delta_frame(vec![2], 8, 44, 4, 5, VideoCodecType::H264);
    assert!(!d.is_keyframe);
    assert_eq!(d.ntp_time_ms, 44);
    assert_eq!((d.width, d.height, d.rtp_timestamp), (4, 5, 8));
    let p = d.to_passthrough();
    assert_eq!(p.data, vec![2]);
    assert_eq!(p.rtp_timestamp, 8);
}

#[test]
fn defaults() {
    assert_eq!(VideoResolution::default(), VideoResolution { width: 1280, height: 720 });
    let c = CodecParameters::default();
    assert_eq!(c.codec, VideoCodecType::H264);
    assert!(c.profile.is_none() && c.level.is_none());
}

#[test]
fn native_source_keeps_latest_frame() {
    let mut native = NativeVideoSource::new(VideoResolution { width: 320, height: 240 });
    assert_eq!(native.video_resolution(), VideoResolution { width: 320, height: 240 });
    assert!(native.take_frame().is_none());
    native.capture_frame(VideoFrame::new(VideoRotation::VideoRotation0, 1, 320, 240, vec![1]));
    native.capture_frame(VideoFrame::new(VideoRotation::VideoRotation90, 2, 320, 240, vec![2]));
    let f = native.take_frame().unwrap();
    assert_eq!(f.timestamp_us, 2);
    assert_eq!(f.rotation, VideoRotation::VideoRotation90);
    assert!(native.take_frame().is_none());
    assert_eq!(NativeVideoSource::default().video_resolution(), VideoResolution { width: 1280, height: 720 });
}

#[test]
fn rtc_source_resolution() {
    let native = RtcVideoSource::Native(NativeVideoSource::new(VideoResolution { width: 10, height: 20 }));
    assert_eq!(native.video_resolution(), VideoResolution { width: 10, height: 20 });
    let encoded = RtcVideoSource::Encoded(EncodedVideoSource::new(VideoCodecType::H264, 30, 40).unwrap());
    assert_eq!(encoded.video_resolution(), VideoResolution { width: 30, height: 40 });
}

//! Passthrough video: injection of already-encoded H.264 frames into a media
//! transport, keyframe-request signalling, encoder discovery by polling, and a
//! capture session that hands raw frames to a single consumer in order.

pub mod passthrough_video_source;
pub mod video_frame;
pub mod video_source;
pub mod encoder_discovery;
pub mod video_capturer;

//! System-audio capture control and voice-activity segmentation.
//!
//! The crate holds the decision logic of a loopback-audio capture service:
//! normalising what an audio backend reports about its output devices,
//! a two-threshold hysteresis voice-activity detector that turns activity
//! scores into utterance boundaries, the capture session state machine, and
//! the small amount of geometry and encoding used around screen captures.
//! Everything that talks to the operating system lives outside this crate and
//! hands plain values in.

pub mod access;
pub mod devices;
pub mod error;
pub mod session;
pub mod snapshot;
pub mod vad;
pub mod window;

pub use access::{access_error, SystemAudioAccess};
pub use devices::{
    default_device, device_with_id, get_default_audio_device, list_audio_output_devices,
    list_system_audio_devices, AudioDeviceInfo, BackendListing, DeviceView, ReportedDevice,
};
pub use error::AudioError;
pub use session::{AudioState, CaptureStatus};
pub use snapshot::{capture_to_base64, png_to_base64, SnapshotError};
pub use vad::{
    activity_score, AudioBuffer, BoundaryKind, Classification, UtteranceBoundary, VadConfig,
    VadEvent, VadPhase, VadState, SCORE_SCALE,
};
pub use window::{
    center_window_completely, position_window_top_center, set_window_height, setup_main_window,
    WindowPlacement, TOP_OFFSET, WINDOW_WIDTH,
};

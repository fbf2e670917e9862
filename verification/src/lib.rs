//! Playback session controller for a continuously streamed media session.
//!
//! The library is the client-side state machine that owns playback intent
//! (play / pause / resume / stop / seek), consumes the asynchronous event
//! stream of an underlying media pipeline, and performs bounded automatic
//! reconnection with a fixed backoff when the stream fails while playing.
//!
//! The pipeline itself (transport, decoding, rendering) is an external
//! collaborator: the controller never calls it directly. Instead, every
//! operation returns the pipeline commands that the host must issue, and the
//! host hands pipeline notifications back as plain values. All decisions --
//! which command to issue, when to retry, when to give up -- are made here
//! and verified.

pub mod events;
pub mod laws;
pub mod reconnect;
pub mod session;

pub use events::EventQueue;
pub use events::PipelineState;
pub use events::RawNotification;
pub use events::SessionEvent;
pub use events::VideoInfo;
pub use reconnect::ReconnectState;
pub use reconnect::RetryDecision;
pub use session::FailureReason;
pub use session::Intent;
pub use session::PipelineCmd;
pub use session::PipelineVerdict;
pub use session::PlaybackSession;
pub use session::PositionInfo;
pub use session::SessionError;
pub use session::SessionState;

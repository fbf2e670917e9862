//! Event model of the media pipeline.
//!
//! The pipeline delivers raw notifications on its own thread. The event
//! bridge translates each notification into at most one typed
//! [`SessionEvent`] and appends it to a FIFO [`EventQueue`]; the session
//! later drains the queue on the consumer thread. Nothing is ever dropped:
//! the queue is unbounded and `push` always appends.

use vstd::prelude::*;

verus! {

/// A state of the media pipeline, as the engine itself reports it.
#[derive(Clone, Copy, Debug, PartialEq, Eq)]
pub enum PipelineState {
    Null,
    Ready,
    Paused,
    Playing,
}

/// Stream metadata reported by the pipeline once negotiation finishes.
///
/// The frame rate is kept as the exact fraction the engine negotiates
/// (`fps_num / fps_den` frames per second).
#[derive(Clone, Debug, PartialEq, Eq)]
pub struct VideoInfo {
    pub width: u32,
    pub height: u32,
    pub fps_num: u32,
    pub fps_den: u32,
    pub codec: String,
}

/// A session-level event, produced by the event bridge and consumed exactly
/// once by the playback session when it drains the queue.
#[derive(Clone, Debug, PartialEq, Eq)]
pub enum SessionEvent {
    EndOfStream,
    Error(String),
    StreamStarted,
    Buffering(u32),
    StateChanged(PipelineState),
    VideoInfoReceived(VideoInfo),
    ReconnectAttempt(u32),
    ConnectionFailed,
}

/// A raw pipeline notification, already reduced to plain values by the host:
/// the engine's bus messages carry exactly this information.
///
/// `from_session_pipeline` on a state change says whether the message
/// originated from the session's own pipeline element (state changes of
/// child elements are not mirrored into the session). `Element` carries the
/// video metadata of a custom element message when the message holds all of
/// it, and `None` otherwise. `Other` stands for every message kind the
/// controller does not react to.
#[derive(Clone, Debug, PartialEq, Eq)]
pub enum RawNotification {
    EndOfStream,
    Error { message: String, debug: String },
    StreamStart,
    Buffering { percent: i32 },
    StateChanged { previous: PipelineState, reported: PipelineState, from_session_pipeline: bool },
    Element { video: Option<VideoInfo> },
    Other,
}

/// A buffering percentage clamped into `0 ..= 100`.
pub open spec fn clamp_percent_spec(percent: i32) -> u32 {
    if percent < 0 {
        0u32
    } else if percent > 100 {
        100u32
    } else {
        percent as u32
    }
}

/// What the bridge makes of each raw notification: at most one typed event.
pub open spec fn translate_spec(raw: RawNotification) -> Option<SessionEvent> {
    match raw {
        RawNotification::EndOfStream => Some(SessionEvent::EndOfStream),
        RawNotification::Error { message, debug } => Some(SessionEvent::Error(message)),
        RawNotification::StreamStart => Some(SessionEvent::StreamStarted),
        RawNotification::Buffering { percent } => Some(
            SessionEvent::Buffering(clamp_percent_spec(percent)),
        ),
        RawNotification::StateChanged { previous, reported, from_session_pipeline } => {
            if from_session_pipeline {
                Some(SessionEvent::StateChanged(reported))
            } else {
                None
            }
        },
        RawNotification::Element { video } => {
            match video {
                Some(v) => Some(SessionEvent::VideoInfoReceived(v)),
                None => None,
            }
        },
        RawNotification::Other => None,
    }
}

/// Translates one raw pipeline notification into at most one session event.
///
/// Runs on the bridge thread; it touches no session state.
pub fn translate(raw: RawNotification) -> (event: Option<SessionEvent>)
    ensures
        event == translate_spec(raw),
{
    match raw {
        RawNotification::EndOfStream => Some(SessionEvent::EndOfStream),
        RawNotification::Error { message, debug: _ } => Some(SessionEvent::Error(message)),
        RawNotification::StreamStart => Some(SessionEvent::StreamStarted),
        RawNotification::Buffering { percent } => {
            let clamped: u32 = if percent < 0 {
                0
            } else if percent > 100 {
                100
            } else {
                percent as u32
            };
            Some(SessionEvent::Buffering(clamped))
        },
        RawNotification::StateChanged { previous: _, reported, from_session_pipeline } => {
            if from_session_pipeline {
                Some(SessionEvent::StateChanged(reported))
            } else {
                None
            }
        },
        RawNotification::Element { video } => {
            match video {
                Some(v) => Some(SessionEvent::VideoInfoReceived(v)),
                None => None,
            }
        },
        RawNotification::Other => None,
    }
}

/// An unbounded FIFO queue of session events.
///
/// The bridge thread pushes, the consumer thread pops; the host guards the
/// queue with its own lock, so the bridge never has to touch the session's
/// state to deliver an event. No event is ever dropped or reordered.
#[derive(Debug)]
pub struct EventQueue {
    events: Vec<SessionEvent>,
}

impl View for EventQueue {
    type V = Seq<SessionEvent>;

    closed spec fn view(&self) -> Seq<SessionEvent> {
        self.events@
    }
}

impl EventQueue {
    /// An empty queue.
    pub fn new() -> (queue: EventQueue)
        ensures
            queue@ == Seq::<SessionEvent>::empty(),
    {
        EventQueue { events: Vec::new() }
    }

    /// Appends one event at the back. Never drops anything.
    pub fn push(&mut self, event: SessionEvent)
        ensures
            final(self)@ == old(self)@.push(event),
    {
        self.events.push(event);
    }

    /// How many events are waiting.
    pub fn len(&self) -> (n: usize)
        ensures
            n == self@.len(),
    {
        self.events.len()
    }

    /// Whether the queue is empty.
    pub fn is_empty(&self) -> (empty: bool)
        ensures
            empty == (self@.len() == 0),
    {
        self.events.is_empty()
    }

    /// Removes and returns the oldest event, or `None` on an empty queue.
    pub fn pop_front(&mut self) -> (event: Option<SessionEvent>)
        ensures
            old(self)@.len() == 0 ==> event is None && *final(self) == *old(self),
            old(self)@.len() > 0 ==> event == Some(old(self)@[0]) && final(self)@ == old(
                self,
            )@.drop_first(),
    {
        if self.events.len() == 0 {
            None
        } else {
            let e = self.events.remove(0);
            proof {
                assert(self.events@ =~= old(self)@.drop_first());
            }
            Some(e)
        }
    }
}

} // verus!

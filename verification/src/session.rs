//! The playback session: the central state machine.
//!
//! The session owns the play intent, the session-level state, the stream
//! metadata, the position telemetry and the reconnection counters. It never
//! calls the pipeline itself: intent operations and event processing return
//! [`PipelineCmd`] values, and the host issues them after releasing the
//! session's lock (a pipeline call may block on I/O and must not be made
//! under the lock).
//!
//! Every transition is stated twice: once as a specification function over
//! the plain session value, and once as executable code proved equal to it.

use crate::events::EventQueue;
use crate::events::PipelineState;
use crate::events::SessionEvent;
use crate::events::VideoInfo;
use crate::reconnect::ReconnectState;
use crate::reconnect::RetryDecision;
use vstd::prelude::*;

verus! {

/// Why a session ended up in the terminal `Failed` state.
#[derive(Clone, Debug, PartialEq, Eq)]
pub enum FailureReason {
    /// The stream reported an error while playback intent was inactive.
    Stream(String),
    /// The reconnection budget was exhausted.
    ConnectionExhausted,
}

impl FailureReason {
    /// The human-readable reason a terminal failure carries.
    pub open spec fn message_spec(self) -> Seq<char> {
        match self {
            FailureReason::Stream(message) => message@,
            FailureReason::ConnectionExhausted => "max reconnect attempts exceeded"@,
        }
    }

    /// The human-readable reason a terminal failure carries, for display by
    /// an observer.
    pub fn message(&self) -> (text: String)
        ensures
            text@ == self.message_spec(),
    {
        match self {
            FailureReason::Stream(message) => message.clone(),
            FailureReason::ConnectionExhausted => "max reconnect attempts exceeded".to_owned(),
        }
    }
}

/// The authoritative session-level state. `Buffering` and `Reconnecting`
/// occur only while playback intent is active; `Failed` is terminal until an
/// explicit stop.
#[derive(Clone, Debug, PartialEq, Eq)]
pub enum SessionState {
    Uninitialized,
    Ready,
    Playing,
    Paused,
    /// Percentage filled, `0 ..= 100`.
    Buffering(u32),
    /// Which reconnection attempt is under way.
    Reconnecting(u32),
    Stopped,
    Failed(FailureReason),
}

/// An error surfaced to the caller of an intent operation.
#[derive(Clone, Debug, PartialEq, Eq)]
pub enum SessionError {
    /// The engine rejected a state transition or a seek.
    PipelineError(String),
    /// The session is terminally failed after a stream error; stop it first.
    StreamError(String),
    /// The session is terminally failed after exhausting the reconnection
    /// budget; stop it first.
    ConnectionExhausted,
}

/// A command the host must issue to the pipeline on the session's behalf.
/// The session decides; the host performs.
#[derive(Clone, Copy, Debug, PartialEq, Eq)]
pub enum PipelineCmd {
    /// Put the pipeline in its idle state.
    ToNull,
    /// Put the pipeline in its paused state.
    ToPaused,
    /// Put the pipeline in its active state.
    ToPlaying,
    /// Issue a flushing seek to this absolute offset, in seconds.
    SeekTo(u64),
    /// Wait this many seconds on the bridge thread, then call
    /// [`PlaybackSession::retry_due`] and issue what it returns.
    ScheduleRetry(u64),
}

/// How the pipeline answered a state-transition request.
#[derive(Clone, Debug, PartialEq, Eq)]
pub enum PipelineVerdict {
    Accepted,
    Rejected(String),
}

/// A caller-initiated desired-state change.
#[derive(Clone, Copy, Debug, PartialEq, Eq)]
pub enum Intent {
    Play,
    Pause,
    Resume,
    Stop,
}

/// Position telemetry, in whole seconds. A duration of zero means the
/// pipeline has not reported one yet.
#[derive(Clone, Copy, Debug, PartialEq, Eq)]
pub struct PositionInfo {
    pub position_seconds: u64,
    pub duration_seconds: u64,
}

impl PositionInfo {
    /// Once a duration is known the position never passes it.
    pub open spec fn wf(self) -> bool {
        self.duration_seconds > 0 ==> self.position_seconds <= self.duration_seconds
    }
}

/// The pipeline command that carries out each intent.
pub open spec fn intent_command_spec(intent: Intent) -> PipelineCmd {
    match intent {
        Intent::Play => PipelineCmd::ToPlaying,
        Intent::Pause => PipelineCmd::ToPaused,
        Intent::Resume => PipelineCmd::ToPlaying,
        Intent::Stop => PipelineCmd::ToNull,
    }
}

/// Which pipeline state transition the host must request for an intent,
/// before reporting the verdict back to the session.
pub fn intent_command(intent: Intent) -> (cmd: PipelineCmd)
    ensures
        cmd == intent_command_spec(intent),
{
    match intent {
        Intent::Play => PipelineCmd::ToPlaying,
        Intent::Pause => PipelineCmd::ToPaused,
        Intent::Resume => PipelineCmd::ToPlaying,
        Intent::Stop => PipelineCmd::ToNull,
    }
}

/// The error an intent operation reports when the session is terminally
/// failed.
pub open spec fn error_for_spec(reason: FailureReason) -> SessionError {
    match reason {
        FailureReason::Stream(message) => SessionError::StreamError(message),
        FailureReason::ConnectionExhausted => SessionError::ConnectionExhausted,
    }
}

/// Maps a terminal failure reason to the error surfaced to callers.
pub fn error_for(reason: &FailureReason) -> (error: SessionError)
    ensures
        error == error_for_spec(*reason),
{
    match reason {
        FailureReason::Stream(message) => SessionError::StreamError(message.clone()),
        FailureReason::ConnectionExhausted => SessionError::ConnectionExhausted,
    }
}

/// The playback session. One instance owns one pipeline for its whole
/// lifetime; the host wraps the instance in a single coarse lock.
#[derive(Clone, Debug, PartialEq, Eq)]
pub struct PlaybackSession {
    /// The stream location this session was built for.
    pub url: String,
    /// The authoritative session-level state.
    pub state: SessionState,
    /// Playback intent: `true` between a successful play or resume and the
    /// next pause, stop, end of stream or terminal failure.
    pub is_playing: bool,
    /// Reconnection counters and configuration.
    pub reconnect: ReconnectState,
    /// Stream metadata, set once the pipeline reports it, overwritten if the
    /// pipeline renegotiates.
    pub video_info: Option<VideoInfo>,
    /// Position telemetry fed by the position poller.
    pub position: PositionInfo,
    /// Whether a reconnection retry is scheduled and not yet issued.
    pub pending_retry: bool,
    /// The most recent stream error message, kept for observers.
    pub last_error: Option<String>,
}

impl PlaybackSession {
    /// Internal consistency of a session value.
    ///
    /// Playback intent implies the reconnection budget is not exhausted; a
    /// counter past the budget occurs only in the terminal `Failed` state;
    /// `Buffering` and `Reconnecting` are sub-modes of active playback.
    pub open spec fn wf(self) -> bool {
        &&& self.reconnect.wf()
        &&& self.is_playing ==> self.reconnect.attempts <= self.reconnect.max_attempts
        &&& self.reconnect.attempts > self.reconnect.max_attempts ==> self.state is Failed
        &&& (self.state is Buffering || self.state is Reconnecting) ==> self.is_playing
        &&& self.position.wf()
    }

    /// A fresh session for one stream: uninitialized, not playing, with a
    /// clear reconnection budget.
    pub fn new(url: String, max_attempts: u32, backoff_secs: u64) -> (session: PlaybackSession)
        requires
            max_attempts < u32::MAX,
        ensures
            session == (PlaybackSession {
                url,
                state: SessionState::Uninitialized,
                is_playing: false,
                reconnect: ReconnectState { attempts: 0, max_attempts, backoff_secs },
                video_info: None,
                position: PositionInfo { position_seconds: 0, duration_seconds: 0 },
                pending_retry: false,
                last_error: None,
            }),
            session.wf(),
    {
        PlaybackSession {
            url,
            state: SessionState::Uninitialized,
            is_playing: false,
            reconnect: ReconnectState::new(max_attempts, backoff_secs),
            video_info: None,
            position: PositionInfo { position_seconds: 0, duration_seconds: 0 },
            pending_retry: false,
            last_error: None,
        }
    }

    /// What `play` and `resume` do, given the pipeline's verdict on the
    /// transition to its active state. From the terminal `Failed` state the
    /// intent is refused without consulting the verdict.
    pub open spec fn play_spec(self, verdict: PipelineVerdict) -> (PlaybackSession, Result<
        (),
        SessionError,
    >) {
        match self.state {
            SessionState::Failed(reason) => (self, Err(error_for_spec(reason))),
            _ => match verdict {
                PipelineVerdict::Accepted => (
                    (PlaybackSession { state: SessionState::Playing, is_playing: true, ..self }),
                    Ok(()),
                ),
                PipelineVerdict::Rejected(message) => (
                    self,
                    Err(SessionError::PipelineError(message)),
                ),
            },
        }
    }

    /// What `pause` does, given the pipeline's verdict on the transition to
    /// its paused state.
    pub open spec fn pause_spec(self, verdict: PipelineVerdict) -> (PlaybackSession, Result<
        (),
        SessionError,
    >) {
        match self.state {
            SessionState::Failed(reason) => (self, Err(error_for_spec(reason))),
            _ => match verdict {
                PipelineVerdict::Accepted => (
                    (PlaybackSession { state: SessionState::Paused, is_playing: false, ..self }),
                    Ok(()),
                ),
                PipelineVerdict::Rejected(message) => (
                    self,
                    Err(SessionError::PipelineError(message)),
                ),
            },
        }
    }

    /// Starts playback. The host first requests the pipeline transition for
    /// [`Intent::Play`] (unless the session is terminally failed) and hands
    /// the verdict in. Idempotent while already playing. Refused while the
    /// session is terminally `Failed`, as every intent but `stop` is: that
    /// state is left through `stop` alone.
    pub fn play(&mut self, verdict: PipelineVerdict) -> (result: Result<(), SessionError>)
        requires
            old(self).wf(),
        ensures
            (*final(self), result) == old(self).play_spec(verdict),
            final(self).wf(),
    {
        let refusal = match &self.state {
            SessionState::Failed(reason) => Some(error_for(reason)),
            _ => None,
        };
        match refusal {
            Some(error) => Err(error),
            None => match verdict {
                PipelineVerdict::Accepted => {
                    self.state = SessionState::Playing;
                    self.is_playing = true;
                    Ok(())
                },
                PipelineVerdict::Rejected(message) => Err(SessionError::PipelineError(message)),
            },
        }
    }

    /// Resumes playback after a pause: the same transition as [`Self::play`].
    pub fn resume(&mut self, verdict: PipelineVerdict) -> (result: Result<(), SessionError>)
        requires
            old(self).wf(),
        ensures
            (*final(self), result) == old(self).play_spec(verdict),
            final(self).wf(),
    {
        self.play(verdict)
    }

    /// Pauses playback. The host requests the pipeline transition for
    /// [`Intent::Pause`] and hands the verdict in. A no-op transition on the
    /// pipeline side is harmless and arrives as `Accepted`. Refused while
    /// the session is terminally `Failed`.
    pub fn pause(&mut self, verdict: PipelineVerdict) -> (result: Result<(), SessionError>)
        requires
            old(self).wf(),
        ensures
            (*final(self), result) == old(self).pause_spec(verdict),
            final(self).wf(),
    {
        let refusal = match &self.state {
            SessionState::Failed(reason) => Some(error_for(reason)),
            _ => None,
        };
        match refusal {
            Some(error) => Err(error),
            None => match verdict {
                PipelineVerdict::Accepted => {
                    self.state = SessionState::Paused;
                    self.is_playing = false;
                    Ok(())
                },
                PipelineVerdict::Rejected(message) => Err(SessionError::PipelineError(message)),
            },
        }
    }

    /// What `stop` does: back to `Stopped` with a clear reconnection budget,
    /// abandoning any scheduled retry.
    pub open spec fn stop_spec(self) -> PlaybackSession {
        PlaybackSession {
            state: SessionState::Stopped,
            is_playing: false,
            pending_retry: false,
            reconnect: ReconnectState { attempts: 0, ..self.reconnect },
            ..self
        }
    }

    /// Stops the session. Always succeeds, from any state: this is the one
    /// documented exit from the terminal `Failed` state. Returns the command
    /// the host must issue (the pipeline's answer to it is irrelevant).
    /// A retry scheduled before the stop will find playback intent gone and
    /// do nothing.
    pub fn stop(&mut self) -> (cmd: PipelineCmd)
        requires
            old(self).wf(),
        ensures
            *final(self) == old(self).stop_spec(),
            cmd == PipelineCmd::ToNull,
            final(self).wf(),
    {
        self.state = SessionState::Stopped;
        self.is_playing = false;
        self.pending_retry = false;
        self.reconnect.reset();
        PipelineCmd::ToNull
    }

    /// What a due retry does: it fires at most once, and only if playback
    /// intent is still active when the backoff ends.
    pub open spec fn retry_due_spec(self) -> (PlaybackSession, Option<PipelineCmd>) {
        let cleared = PlaybackSession { pending_retry: false, ..self };
        if self.pending_retry && self.is_playing {
            (cleared, Some(PipelineCmd::ToPlaying))
        } else {
            (cleared, None)
        }
    }

    /// Called by the host when a scheduled retry's backoff has elapsed, on
    /// the bridge thread. Returns the reissued play command, or `None` if the
    /// session stopped playing in the meantime: the retry is then abandoned
    /// silently.
    pub fn retry_due(&mut self) -> (cmd: Option<PipelineCmd>)
        requires
            old(self).wf(),
        ensures
            (*final(self), cmd) == old(self).retry_due_spec(),
            final(self).wf(),
    {
        let fire = self.pending_retry && self.is_playing;
        self.pending_retry = false;
        if fire {
            Some(PipelineCmd::ToPlaying)
        } else {
            None
        }
    }
}

impl PlaybackSession {
    /// What a buffering report does. Buffering only matters while playback
    /// intent is active: the pipeline is paused until the buffer fills, and
    /// resumed once it reports complete.
    pub open spec fn apply_buffering_spec(self, percent: u32) -> (PlaybackSession, Seq<
        PipelineCmd,
    >) {
        if !self.is_playing {
            (self, Seq::<PipelineCmd>::empty())
        } else if percent < 100 {
            (
                (PlaybackSession { state: SessionState::Buffering(percent), ..self }),
                seq![PipelineCmd::ToPaused],
            )
        } else {
            (
                (PlaybackSession { state: SessionState::Playing, ..self }),
                seq![PipelineCmd::ToPlaying],
            )
        }
    }

    /// What a stream error does. While playback intent is active the
    /// reconnection policy decides: either one more retry (tear the pipeline
    /// down, wait out the backoff, then reissue play), or terminal failure
    /// once the budget is exhausted. Without intent the error is terminal at
    /// once.
    pub open spec fn apply_error_spec(self, message: String) -> (PlaybackSession, Seq<
        PipelineCmd,
    >) {
        let recorded = PlaybackSession { last_error: Some(message), ..self };
        if self.is_playing {
            let stepped = self.reconnect.on_error_spec();
            match stepped.1 {
                RetryDecision::Retry(attempt) => (
                    (PlaybackSession {
                        state: SessionState::Reconnecting(attempt),
                        reconnect: stepped.0,
                        pending_retry: true,
                        ..recorded
                    }),
                    seq![
                        PipelineCmd::ToNull,
                        PipelineCmd::ScheduleRetry(self.reconnect.backoff_secs),
                    ],
                ),
                RetryDecision::GiveUp => (
                    (PlaybackSession {
                        state: SessionState::Failed(FailureReason::ConnectionExhausted),
                        reconnect: stepped.0,
                        is_playing: false,
                        ..recorded
                    }),
                    Seq::<PipelineCmd>::empty(),
                ),
            }
        } else {
            (
                (PlaybackSession {
                    state: SessionState::Failed(FailureReason::Stream(message)),
                    ..recorded
                }),
                Seq::<PipelineCmd>::empty(),
            )
        }
    }

    /// The event transition table, applied to one event.
    ///
    /// `Failed` is terminal: until an explicit stop, events change nothing
    /// except that stream errors are still recorded for observers.
    pub open spec fn apply_event_spec(self, event: SessionEvent) -> (PlaybackSession, Seq<
        PipelineCmd,
    >) {
        if self.state is Failed {
            match event {
                SessionEvent::Error(message) => (
                    (PlaybackSession { last_error: Some(message), ..self }),
                    Seq::<PipelineCmd>::empty(),
                ),
                _ => (self, Seq::<PipelineCmd>::empty()),
            }
        } else {
            match event {
                SessionEvent::EndOfStream => (
                    (PlaybackSession { state: SessionState::Stopped, is_playing: false, ..self }),
                    Seq::<PipelineCmd>::empty(),
                ),
                SessionEvent::Error(message) => self.apply_error_spec(message),
                SessionEvent::StreamStarted => (
                    (PlaybackSession {
                        state: if self.is_playing {
                            SessionState::Playing
                        } else {
                            SessionState::Ready
                        },
                        ..self
                    }),
                    Seq::<PipelineCmd>::empty(),
                ),
                SessionEvent::Buffering(percent) => self.apply_buffering_spec(percent),
                SessionEvent::StateChanged(reported) => {
                    if reported is Playing {
                        (
                            (PlaybackSession {
                                state: SessionState::Playing,
                                reconnect: ReconnectState { attempts: 0, ..self.reconnect },
                                ..self
                            }),
                            Seq::<PipelineCmd>::empty(),
                        )
                    } else {
                        (self, Seq::<PipelineCmd>::empty())
                    }
                },
                SessionEvent::VideoInfoReceived(info) => (
                    (PlaybackSession { video_info: Some(info), ..self }),
                    Seq::<PipelineCmd>::empty(),
                ),
                SessionEvent::ReconnectAttempt(attempt) => {
                    if self.is_playing {
                        (
                            (PlaybackSession { state: SessionState::Reconnecting(attempt), ..self }),
                            Seq::<PipelineCmd>::empty(),
                        )
                    } else {
                        (self, Seq::<PipelineCmd>::empty())
                    }
                },
                SessionEvent::ConnectionFailed => (
                    (PlaybackSession {
                        state: SessionState::Failed(FailureReason::ConnectionExhausted),
                        is_playing: false,
                        ..self
                    }),
                    Seq::<PipelineCmd>::empty(),
                ),
            }
        }
    }

    /// Folding the transition table over a sequence of events, oldest first,
    /// collecting the pipeline commands in order.
    pub open spec fn drain_spec(self, events: Seq<SessionEvent>) -> (PlaybackSession, Seq<
        PipelineCmd,
    >)
        decreases events.len(),
    {
        if events.len() == 0 {
            (self, Seq::<PipelineCmd>::empty())
        } else {
            let stepped = self.apply_event_spec(events[0]);
            let rest = stepped.0.drain_spec(events.drop_first());
            (rest.0, stepped.1 + rest.1)
        }
    }

    /// Applies one session event: the executable transition table.
    pub fn apply_event(&mut self, event: SessionEvent) -> (cmds: Vec<PipelineCmd>)
        requires
            old(self).wf(),
        ensures
            (*final(self), cmds@) == old(self).apply_event_spec(event),
            final(self).wf(),
    {
        let mut cmds: Vec<PipelineCmd> = Vec::new();
        if matches!(self.state, SessionState::Failed(_)) {
            if let SessionEvent::Error(message) = event {
                self.last_error = Some(message);
            }
        } else {
            match event {
                SessionEvent::EndOfStream => {
                    self.state = SessionState::Stopped;
                    self.is_playing = false;
                },
                SessionEvent::Error(message) => {
                    if self.is_playing {
                        self.last_error = Some(message);
                        let ghost backoff = self.reconnect.backoff_secs;
                        let decision = self.reconnect.on_error();
                        match decision {
                            RetryDecision::Retry(attempt) => {
                                self.state = SessionState::Reconnecting(attempt);
                                self.pending_retry = true;
                                cmds.push(PipelineCmd::ToNull);
                                cmds.push(PipelineCmd::ScheduleRetry(self.reconnect.backoff_secs));
                                proof {
                                    assert(cmds@ =~= seq![
                                        PipelineCmd::ToNull,
                                        PipelineCmd::ScheduleRetry(backoff),
                                    ]);
                                }
                            },
                            RetryDecision::GiveUp => {
                                self.state = SessionState::Failed(
                                    FailureReason::ConnectionExhausted,
                                );
                                self.is_playing = false;
                            },
                        }
                    } else {
                        self.last_error = Some(message.clone());
                        self.state = SessionState::Failed(FailureReason::Stream(message));
                    }
                },
                SessionEvent::StreamStarted => {
                    self.state = if self.is_playing {
                        SessionState::Playing
                    } else {
                        SessionState::Ready
                    };
                },
                SessionEvent::Buffering(percent) => {
                    if self.is_playing {
                        if percent < 100 {
                            self.state = SessionState::Buffering(percent);
                            cmds.push(PipelineCmd::ToPaused);
                            proof {
                                assert(cmds@ =~= seq![PipelineCmd::ToPaused]);
                            }
                        } else {
                            self.state = SessionState::Playing;
                            cmds.push(PipelineCmd::ToPlaying);
                            proof {
                                assert(cmds@ =~= seq![PipelineCmd::ToPlaying]);
                            }
                        }
                    }
                },
                SessionEvent::StateChanged(reported) => {
                    if matches!(reported, PipelineState::Playing) {
                        self.state = SessionState::Playing;
                        self.reconnect.reset();
                    }
                },
                SessionEvent::VideoInfoReceived(info) => {
                    self.video_info = Some(info);
                },
                SessionEvent::ReconnectAttempt(attempt) => {
                    if self.is_playing {
                        self.state = SessionState::Reconnecting(attempt);
                    }
                },
                SessionEvent::ConnectionFailed => {
                    self.state = SessionState::Failed(FailureReason::ConnectionExhausted);
                    self.is_playing = false;
                },
            }
        }
        cmds
    }

    /// Drains every queued event and applies the transition table to each,
    /// in strict arrival order. Returns the pipeline commands to issue, in
    /// order, once the session's lock is released. On an empty queue this is
    /// a no-op, and draining again is too.
    pub fn drain_events(&mut self, queue: &mut EventQueue) -> (cmds: Vec<PipelineCmd>)
        requires
            old(self).wf(),
        ensures
            *final(self) == old(self).drain_spec(old(queue)@).0,
            cmds@ == old(self).drain_spec(old(queue)@).1,
            final(queue)@ == Seq::<SessionEvent>::empty(),
            final(self).wf(),
    {
        let ghost start_session = *self;
        let ghost start_events = queue@;
        let mut cmds: Vec<PipelineCmd> = Vec::new();
        while !queue.is_empty()
            invariant
                self.wf(),
                start_session.drain_spec(start_events).0 == self.drain_spec(queue@).0,
                start_session.drain_spec(start_events).1 == cmds@ + self.drain_spec(queue@).1,
            decreases queue@.len(),
        {
            let ghost before_session = *self;
            let ghost before_events = queue@;
            match queue.pop_front() {
                Some(event) => {
                    let mut step_cmds = self.apply_event(event);
                    proof {
                        assert(before_session.drain_spec(before_events).0 == self.drain_spec(
                            queue@,
                        ).0);
                        assert(before_session.drain_spec(before_events).1 == step_cmds@
                            + self.drain_spec(queue@).1);
                        assert((cmds@ + step_cmds@) + self.drain_spec(queue@).1 =~= cmds@ + (
                        step_cmds@ + self.drain_spec(queue@).1));
                    }
                    cmds.append(&mut step_cmds);
                },
                None => {
                    // The loop guard saw a non-empty queue.
                    proof {
                        assert(false);
                    }
                },
            }
        }
        proof {
            assert(cmds@ + Seq::<PipelineCmd>::empty() =~= cmds@);
        }
        cmds
    }
}

/// A seek fraction in thousandths, clamped into `0 ..= 1000`. Out-of-range
/// fractions are clamped, never rejected.
pub open spec fn clamp_permille_spec(fraction_permille: i64) -> int {
    if fraction_permille < 0 {
        0
    } else if fraction_permille > 1000 {
        1000
    } else {
        fraction_permille as int
    }
}

/// The absolute seek offset, in seconds: the clamped fraction of the known
/// duration, rounded down.
pub open spec fn seek_target_spec(duration_seconds: u64, fraction_permille: i64) -> int {
    duration_seconds * clamp_permille_spec(fraction_permille) / 1000
}

/// Played fraction of the stream in thousandths, rounded down.
pub open spec fn progress_permille_spec(position_seconds: u64, duration_seconds: u64) -> int {
    (position_seconds as int) * 1000 / (duration_seconds as int)
}

impl PlaybackSession {
    /// What a position poller tick does: both readings present and playback
    /// intent active updates the telemetry atomically, the position clamped
    /// to a known duration; anything else changes nothing. The poller is
    /// read-only towards the pipeline, so no command ever results.
    pub open spec fn position_tick_spec(self, position: Option<u64>, duration: Option<u64>) -> PlaybackSession {
        if self.is_playing && position is Some && duration is Some {
            let p = position->0;
            let d = duration->0;
            (PlaybackSession {
                position: PositionInfo {
                    position_seconds: if d > 0 && p > d {
                        d
                    } else {
                        p
                    },
                    duration_seconds: d,
                },
                ..self
            })
        } else {
            self
        }
    }

    /// Feeds one position poller tick into the session. The host queries the
    /// pipeline for position and duration while playing and passes whatever
    /// was available; a momentarily missing reading is tolerated and is not
    /// an error.
    pub fn position_tick(&mut self, position: Option<u64>, duration: Option<u64>)
        requires
            old(self).wf(),
        ensures
            *final(self) == old(self).position_tick_spec(position, duration),
            final(self).wf(),
    {
        if self.is_playing {
            if let (Some(p), Some(d)) = (position, duration) {
                let clamped: u64 = if d > 0 && p > d {
                    d
                } else {
                    p
                };
                self.position = PositionInfo { position_seconds: clamped, duration_seconds: d };
            }
        }
    }

    /// Computes the seek command for a fraction of the stream, given in
    /// thousandths. Out-of-range fractions are clamped into `0 ..= 1000`,
    /// never rejected; with no known duration the seek is a no-op and `None`
    /// is returned. The returned offset never passes the duration.
    pub fn seek(&self, fraction_permille: i64) -> (cmd: Option<PipelineCmd>)
        ensures
            self.position.duration_seconds == 0 ==> cmd is None,
            self.position.duration_seconds > 0 ==> cmd == Some(
                PipelineCmd::SeekTo(
                    seek_target_spec(self.position.duration_seconds, fraction_permille) as u64,
                ),
            ),
            self.position.duration_seconds > 0 ==> seek_target_spec(
                self.position.duration_seconds,
                fraction_permille,
            ) <= self.position.duration_seconds,
    {
        let duration = self.position.duration_seconds;
        if duration == 0 {
            return None;
        }
        let clamped: u64 = if fraction_permille < 0 {
            0
        } else if fraction_permille > 1000 {
            1000
        } else {
            fraction_permille as u64
        };
        proof {
            vstd::arithmetic::mul::lemma_mul_inequality(clamped as int, 1000, duration as int);
            vstd::arithmetic::div_mod::lemma_div_is_ordered(
                duration as int * clamped as int,
                duration as int * 1000,
                1000,
            );
            vstd::arithmetic::div_mod::lemma_div_multiples_vanish(duration as int, 1000);
        }
        let product: u128 = (duration as u128) * (clamped as u128);
        let target: u64 = (product / 1000) as u64;
        Some(PipelineCmd::SeekTo(target))
    }

    /// Played fraction of the stream in thousandths, for presentation (a
    /// seek bar position), or `None` while the duration is unknown. Never
    /// exceeds 1000.
    pub fn progress_permille(&self) -> (progress: Option<u64>)
        requires
            self.wf(),
        ensures
            self.position.duration_seconds == 0 ==> progress is None,
            self.position.duration_seconds > 0 ==> progress == Some(
                progress_permille_spec(
                    self.position.position_seconds,
                    self.position.duration_seconds,
                ) as u64,
            ),
            self.position.duration_seconds > 0 ==> 0 <= progress_permille_spec(
                self.position.position_seconds,
                self.position.duration_seconds,
            ) <= 1000,
    {
        let duration = self.position.duration_seconds;
        if duration == 0 {
            return None;
        }
        let position = self.position.position_seconds;
        proof {
            vstd::arithmetic::div_mod::lemma_div_is_ordered(
                position as int * 1000,
                duration as int * 1000,
                duration as int,
            );
            vstd::arithmetic::div_mod::lemma_div_multiples_vanish(1000, duration as int);
        }
        let scaled: u128 = (position as u128) * 1000;
        Some((scaled / (duration as u128)) as u64)
    }
}

} // verus!

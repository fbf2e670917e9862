//! Laws of the playback session, stated and proved over the specification
//! functions of [`crate::session`].
//!
//! Each proof function here is part of the library's public statement: it
//! pins down behaviour that spans several operations or whole event
//! sequences, beyond what any single contract says.

use crate::events::PipelineState;
use crate::events::SessionEvent;
use crate::session::FailureReason;
use crate::session::PipelineCmd;
use crate::session::PlaybackSession;
use crate::session::SessionState;
use vstd::prelude::*;

verus! {

/// Every event of the sequence is a stream error.
pub open spec fn all_error_events(events: Seq<SessionEvent>) -> bool {
    forall|i: int| 0 <= i < events.len() ==> (#[trigger] events[i]) is Error
}

/// Draining a sequence extended by one event is draining the sequence and
/// then applying the extra event: the transition table folds left.
pub proof fn lemma_drain_snoc(s: PlaybackSession, events: Seq<SessionEvent>, event: SessionEvent)
    ensures
        s.drain_spec(events.push(event)).0 == s.drain_spec(events).0.apply_event_spec(event).0,
        s.drain_spec(events.push(event)).1 == s.drain_spec(events).1 + s.drain_spec(
            events,
        ).0.apply_event_spec(event).1,
    decreases events.len(),
{
    reveal_with_fuel(PlaybackSession::drain_spec, 3);
    if events.len() == 0 {
        assert(events.push(event)[0] == event);
        assert(events.push(event).drop_first() =~= Seq::<SessionEvent>::empty());
        let stepped = s.apply_event_spec(event);
        assert(s.drain_spec(events.push(event)).1 =~= stepped.1);
        assert(s.drain_spec(events).1 + stepped.1 =~= stepped.1);
    } else {
        let first = events[0];
        let s1 = s.apply_event_spec(first).0;
        let c1 = s.apply_event_spec(first).1;
        assert(events.push(event)[0] == first);
        assert(events.push(event).drop_first() =~= events.drop_first().push(event));
        lemma_drain_snoc(s1, events.drop_first(), event);
        let rest = s1.drain_spec(events.drop_first());
        let last = rest.0.apply_event_spec(event);
        assert(c1 + (rest.1 + last.1) =~= (c1 + rest.1) + last.1);
    }
}

/// Draining an empty queue is a no-op, and doing it again still is: no state
/// change, no commands.
pub proof fn lemma_drain_empty_noop(s: PlaybackSession)
    ensures
        s.drain_spec(Seq::<SessionEvent>::empty()).0 == s,
        s.drain_spec(Seq::<SessionEvent>::empty()).1 == Seq::<PipelineCmd>::empty(),
        s.drain_spec(Seq::<SessionEvent>::empty()).0.drain_spec(Seq::<SessionEvent>::empty()).0
            == s,
{
}

/// Observing the pipeline reach `Playing` resets the attempt counter to
/// zero, whatever its prior value, and mirrors the state — in every
/// non-terminal session state.
pub proof fn lemma_playing_resets_attempts(s: PlaybackSession)
    requires
        !(s.state is Failed),
    ensures
        s.apply_event_spec(
            SessionEvent::StateChanged(PipelineState::Playing),
        ).0.reconnect.attempts == 0,
        s.apply_event_spec(SessionEvent::StateChanged(PipelineState::Playing)).0.state
            == SessionState::Playing,
        s.apply_event_spec(SessionEvent::StateChanged(PipelineState::Playing)).1 == Seq::<
            PipelineCmd,
        >::empty(),
{
}

/// A stop during a reconnect backoff wins: the stopped session has no
/// playback intent, and the retry that later comes due observes that and
/// issues no pipeline transition at all.
pub proof fn lemma_stop_abandons_retry(s: PlaybackSession)
    ensures
        !s.stop_spec().is_playing,
        s.stop_spec().retry_due_spec().1 is None,
        s.stop_spec().retry_due_spec().0 == s.stop_spec(),
{
}

/// An incomplete buffering report while playing pauses the pipeline, and the
/// completed one resumes it: the session passes through `Buffering` and ends
/// `Playing`, having issued exactly a pause and then a resume.
pub proof fn lemma_buffering_pause_resume(s: PlaybackSession, percent: u32)
    requires
        s.is_playing,
        !(s.state is Failed),
        percent < 100,
    ensures
        ({
            let outcome = s.drain_spec(
                seq![SessionEvent::Buffering(percent), SessionEvent::Buffering(100u32)],
            );
            &&& outcome.0.state == SessionState::Playing
            &&& outcome.0.is_playing
            &&& outcome.1 == seq![PipelineCmd::ToPaused, PipelineCmd::ToPlaying]
        }),
{
    reveal_with_fuel(PlaybackSession::drain_spec, 3);
    let events = seq![SessionEvent::Buffering(percent), SessionEvent::Buffering(100u32)];
    let mid = s.apply_event_spec(events[0]).0;
    assert(mid.state == SessionState::Buffering(percent));
    assert(events.drop_first() =~= seq![SessionEvent::Buffering(100u32)]);
    assert(events.drop_first().drop_first() =~= Seq::<SessionEvent>::empty());
    assert(s.drain_spec(events).1 =~= seq![PipelineCmd::ToPaused, PipelineCmd::ToPlaying]);
}

/// The attempt counter obeys the reconnection discipline: an event either
/// leaves it unchanged, resets it to zero by observing the pipeline reach
/// `Playing`, or bumps it by exactly one for a stream error observed while
/// playback intent is active. Nothing else moves it.
pub proof fn lemma_attempts_discipline(s: PlaybackSession, event: SessionEvent)
    requires
        s.wf(),
    ensures
        ({
            let next = s.apply_event_spec(event).0;
            ||| next.reconnect.attempts == s.reconnect.attempts
            ||| (next.reconnect.attempts == 0 && event == SessionEvent::StateChanged(
                PipelineState::Playing,
            ) && !(s.state is Failed))
            ||| (next.reconnect.attempts == s.reconnect.attempts + 1 && event is Error
                && s.is_playing && !(s.state is Failed))
        }),
{
}

/// Consecutive stream errors while playing: each observed error bumps the
/// attempt counter by exactly one, the counter never passes
/// `max_attempts + 1`, the first `max_attempts` errors each start a retry,
/// and the error that exhausts the budget makes the session terminally
/// `Failed(ConnectionExhausted)` — once, with every later error changing
/// nothing of the state.
///
/// `prefix` may be any prefix length of the error sequence, so the ensures
/// describe every intermediate state of the storm as well as the last.
pub proof fn lemma_error_storm(s: PlaybackSession, events: Seq<SessionEvent>, prefix: int)
    requires
        s.wf(),
        s.is_playing,
        !(s.state is Failed),
        s.reconnect.attempts == 0,
        all_error_events(events),
        0 <= prefix <= events.len(),
    ensures
        ({
            let outcome = s.drain_spec(events.take(prefix)).0;
            let budget = s.reconnect.max_attempts as int;
            &&& outcome.reconnect.attempts == if prefix <= budget + 1 {
                prefix
            } else {
                budget + 1
            }
            &&& outcome.reconnect.max_attempts == s.reconnect.max_attempts
            &&& (outcome.is_playing <==> prefix <= budget)
            &&& (1 <= prefix <= budget ==> outcome.state == SessionState::Reconnecting(
                prefix as u32,
            ))
            &&& (prefix > budget ==> outcome.state == SessionState::Failed(
                FailureReason::ConnectionExhausted,
            ))
            &&& (prefix == 0 ==> outcome == s)
            &&& outcome.wf()
        }),
    decreases prefix,
{
    if prefix == 0 {
        assert(events.take(0) =~= Seq::<SessionEvent>::empty());
    } else {
        lemma_error_storm(s, events, prefix - 1);
        let shorter = events.take(prefix - 1);
        let last = events[prefix - 1];
        assert(events.take(prefix) =~= shorter.push(last));
        lemma_drain_snoc(s, shorter, last);
        let before = s.drain_spec(shorter).0;
        assert(last is Error);
        assert(last == SessionEvent::Error(last->Error_0));
    }
}

} // verus!

//! Properties of the engine over whole runs of polls.
use vstd::prelude::*;

use crate::engine::{EngineModel, Occupancy, Poll};

verus! {

/// One poll keeps the model well formed, admits its own time afterwards,
/// leaves the timing alone, and emits a transition exactly when the state
/// changes, naming the new state.
pub proof fn lemma_poll_step(m: EngineModel, now: u64, event: bool)
    requires
        m.wf(),
        m.admits(now),
    ensures
        ({
            let (next, out) = m.poll(now, event);
            &&& next.wf()
            &&& next.admits(now)
            &&& next.entry_debounce == m.entry_debounce
            &&& next.exit_hysteresis == m.exit_hysteresis
            &&& out.is_some() <==> next.state != m.state
            &&& out.is_some() ==> out.unwrap() == next.state
        }),
{
}

/// Transitions alternate strictly: none repeats the state it leaves, so
/// from idle they run active, idle, active, and so on, and the last one
/// names the state that the run ends in.
pub proof fn lemma_transitions_alternate(m: EngineModel, polls: Seq<Poll>)
    requires
        m.wf(),
        m.admits_all(polls),
    ensures
        ({
            let (last, out) = m.run(polls);
            &&& forall|i: int| 0 <= i < out.len() - 1 ==> #[trigger] out[i] != out[i + 1]
            &&& out.len() > 0 ==> out[0] != m.state
            &&& out.len() > 0 ==> out.last() == last.state
            &&& out.len() == 0 ==> last.state == m.state
        }),
    decreases polls.len(),
{
    if polls.len() > 0 {
        let (next, o) = m.poll(polls[0].now, polls[0].event);
        let rest = polls.drop_first();
        lemma_poll_step(m, polls[0].now, polls[0].event);
        assert(next.admits_all(rest)) by {
            assert forall|i: int| 0 <= i < rest.len() - 1 implies #[trigger] rest[i].now <= rest[i
                + 1].now by {
                assert(polls[i + 1].now <= polls[i + 2].now);
            }
            if rest.len() > 0 {
                assert(polls[0].now <= polls[1].now);
            }
        }
        lemma_transitions_alternate(next, rest);
        let (last, tail) = next.run(rest);
        match o {
            Some(to) => {
                let out = seq![to] + tail;
                assert forall|i: int| 0 <= i < out.len() - 1 implies #[trigger] out[i] != out[i
                    + 1] by {
                    if i > 0 {
                        assert(out[i] == tail[i - 1]);
                        assert(out[i + 1] == tail[i]);
                    }
                }
                assert(m.run(polls) == (last, out));
            },
            None => {
                assert(m.run(polls) == (last, tail));
            },
        }
    }
}

/// From idle, a detection that passes the entry debounce turns the state
/// active at once; a later poll with no detection, more than the exit
/// hysteresis after it, turns it idle again.
pub proof fn lemma_detection_then_silence(m: EngineModel, at: u64, later: u64)
    requires
        m.wf(),
        m.state == Occupancy::Idle,
        m.admits(at),
        m.accepts(at),
        at <= later,
        later - at > m.exit_hysteresis,
    ensures
        ({
            let (on, first) = m.poll(at, true);
            let (off, second) = on.poll(later, false);
            &&& first == Some(Occupancy::Active)
            &&& on.state == Occupancy::Active
            &&& on.last_accepted == Some(at)
            &&& second == Some(Occupancy::Idle)
            &&& off.state == Occupancy::Idle
        }),
{
}

/// A detection that comes too soon for the entry debounce is discarded:
/// the poll goes exactly as if no detection had come.
pub proof fn lemma_early_detection_discarded(m: EngineModel, now: u64)
    requires
        !m.accepts(now),
    ensures
        m.poll(now, true) == m.poll(now, false),
{
}

/// An active engine never emits a second activation.
pub proof fn lemma_active_never_reactivates(m: EngineModel, now: u64, event: bool)
    ensures
        m.state == Occupancy::Active ==> m.poll(now, event).1 != Some(Occupancy::Active),
{
}

/// An active engine stays active, and emits nothing, while a detection
/// comes at every poll, each at most `gap` after the one before (the first
/// after the detection at `prev`), provided `entry_debounce + gap` is within
/// the exit hysteresis: the next accepted detection then always comes before
/// the exit countdown runs out.
pub proof fn lemma_active_while_detections_keep_up(
    m: EngineModel,
    prev: u64,
    gap: u64,
    polls: Seq<Poll>,
)
    requires
        m.wf(),
        m.state == Occupancy::Active,
        m.last_accepted.unwrap() <= prev,
        prev - m.last_accepted.unwrap() <= m.entry_debounce,
        m.entry_debounce + gap <= m.exit_hysteresis,
        forall|i: int| 0 <= i < polls.len() ==> (#[trigger] polls[i]).event,
        polls.len() > 0 ==> prev <= polls[0].now <= prev + gap,
        forall|i: int|
            0 <= i < polls.len() - 1 ==> #[trigger] polls[i].now <= polls[i + 1].now
                <= polls[i].now + gap,
    ensures
        m.run(polls).0.state == Occupancy::Active,
        m.run(polls).1.len() == 0,
    decreases polls.len(),
{
    if polls.len() > 0 {
        let now = polls[0].now;
        let next = m.poll(now, true).0;
        let rest = polls.drop_first();
        assert(polls[0].event);
        assert forall|i: int| 0 <= i < rest.len() implies (#[trigger] rest[i]).event by {
            assert(rest[i] == polls[i + 1]);
        }
        assert forall|i: int|
            0 <= i < rest.len() - 1 implies #[trigger] rest[i].now <= rest[i + 1].now
                <= rest[i].now + gap by {
            assert(rest[i] == polls[i + 1]);
            assert(rest[i + 1] == polls[i + 2]);
        }
        if rest.len() > 0 {
            assert(rest[0] == polls[1]);
            assert(polls[0].now <= polls[1].now <= polls[0].now + gap);
        }
        lemma_active_while_detections_keep_up(next, now, gap, rest);
    }
}

/// With no detection ever, an idle engine stays idle and emits nothing.
pub proof fn lemma_no_detection_stays_idle(m: EngineModel, polls: Seq<Poll>)
    requires
        m.wf(),
        m.state == Occupancy::Idle,
        forall|i: int| 0 <= i < polls.len() ==> !(#[trigger] polls[i]).event,
    ensures
        m.run(polls).0 == m,
        m.run(polls).1.len() == 0,
    decreases polls.len(),
{
    if polls.len() > 0 {
        let rest = polls.drop_first();
        assert forall|i: int| 0 <= i < rest.len() implies !(#[trigger] rest[i]).event by {
            assert(rest[i] == polls[i + 1]);
        }
        lemma_no_detection_stays_idle(m, rest);
    }
}

/// The entry debounce is exclusive: a detection exactly `entry_debounce`
/// after the last accepted one is refused, one a millisecond later passes.
pub proof fn lemma_debounce_boundary(m: EngineModel, t: u64)
    requires
        m.last_accepted == Some(t),
        t + m.entry_debounce < u64::MAX,
    ensures
        !m.accepts((t + m.entry_debounce) as u64),
        m.accepts((t + m.entry_debounce + 1) as u64),
{
}

} // verus!

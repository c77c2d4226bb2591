//! The debounce/hysteresis state machine.
//!
//! Both timers count from the last *accepted* detection. A detection that
//! comes too soon for the entry debounce is discarded: it neither changes
//! the state nor restarts the exit countdown. So where the entry debounce is
//! longer than the exit hysteresis, a steady stream of detections lets the
//! state fall idle between accepted ones (see `laws` for when it does not).
use vstd::prelude::*;

use crate::settings::{settings_error, Settings, SettingsError};

verus! {

/// The occupancy state that the engine publishes.
#[derive(Clone, Copy, Debug, PartialEq, Eq, Structural)]
pub enum Occupancy {
    /// No genuine motion for at least the exit hysteresis.
    Idle,
    /// Motion was accepted and the exit hysteresis has not run out.
    Active,
}

impl Occupancy {
    /// The MQTT payload for this state.
    pub fn payload(&self) -> (r: &'static str)
        ensures
            r@ == payload_of(*self),
    {
        match self {
            Occupancy::Idle => "OFF",
            Occupancy::Active => "ON",
        }
    }
}

/// `ON` for an active state, `OFF` for an idle one.
pub open spec fn payload_of(s: Occupancy) -> Seq<char> {
    match s {
        Occupancy::Idle => "OFF"@,
        Occupancy::Active => "ON"@,
    }
}

/// A detection reported by one sensor worker.
pub struct DetectionEvent {
    /// The name of the sensor that saw motion.
    pub source_id: String,
    /// When the sensor saw it, in milliseconds on the engine's clock.
    pub observed_at: u64,
}

/// A state change that the engine asks to publish.
#[derive(Clone, Copy, Debug, PartialEq, Eq, Structural)]
pub struct TransitionIntent {
    /// The state entered.
    pub to: Occupancy,
    /// The poll time, in milliseconds, at which it was entered.
    pub at: u64,
}

/// What one poll of the engine sees: its clock, and whether a detection
/// was waiting in the channel.
#[derive(Clone, Copy, Debug, PartialEq, Eq, Structural)]
pub struct Poll {
    /// The poll time, in milliseconds.
    pub now: u64,
    /// Whether a detection was drained at this poll.
    pub event: bool,
}

/// The abstract state of an engine.
pub struct EngineModel {
    pub state: Occupancy,
    /// The time of the most recent detection that passed the entry debounce;
    /// both the debounce and the exit hysteresis count from here.
    pub last_accepted: Option<u64>,
    pub entry_debounce: u64,
    pub exit_hysteresis: u64,
}

impl EngineModel {
    /// Idle, with no detection seen yet.
    pub open spec fn initial(entry_debounce: u64, exit_hysteresis: u64) -> EngineModel {
        EngineModel {
            state: Occupancy::Idle,
            last_accepted: None,
            entry_debounce,
            exit_hysteresis,
        }
    }

    pub open spec fn wf(self) -> bool {
        &&& self.exit_hysteresis > 0
        &&& self.state == Occupancy::Active ==> self.last_accepted.is_some()
    }

    /// The clock has not gone back behind the last accepted detection.
    pub open spec fn admits(self, now: u64) -> bool {
        self.last_accepted.is_some() ==> self.last_accepted.unwrap() <= now
    }

    /// A detection at `now` passes the entry debounce: strictly more than
    /// `entry_debounce` has gone by since the last accepted one.
    pub open spec fn accepts(self, now: u64) -> bool {
        match self.last_accepted {
            None => true,
            Some(t) => now - t > self.entry_debounce,
        }
    }

    /// Active, and strictly more than `exit_hysteresis` has gone by since
    /// the last accepted detection.
    pub open spec fn expired(self, now: u64) -> bool {
        &&& self.state == Occupancy::Active
        &&& self.last_accepted.is_some()
        &&& now - self.last_accepted.unwrap() > self.exit_hysteresis
    }

    /// One poll at `now`: the next state, and the transition emitted, if any.
    ///
    /// A detection that passes the entry debounce is accepted: the state is
    /// active from then on and both countdowns restart; only a change from
    /// idle is emitted. A detection that comes too soon is discarded and
    /// changes nothing. Without an accepted detection, an active state whose
    /// exit countdown ran out goes idle.
    pub open spec fn poll(self, now: u64, event: bool) -> (EngineModel, Option<Occupancy>) {
        if event && self.accepts(now) {
            let next = EngineModel {
                state: Occupancy::Active,
                last_accepted: Some(now),
                ..self
            };
            (next, if self.state == Occupancy::Idle { Some(Occupancy::Active) } else { None })
        } else if self.expired(now) {
            (EngineModel { state: Occupancy::Idle, ..self }, Some(Occupancy::Idle))
        } else {
            (self, None)
        }
    }

    /// The polls come in clock order, from a time that the model admits.
    pub open spec fn admits_all(self, polls: Seq<Poll>) -> bool {
        &&& forall|i: int| 0 <= i < polls.len() - 1 ==> #[trigger] polls[i].now <= polls[i + 1].now
        &&& polls.len() > 0 ==> self.admits(polls[0].now)
    }

    /// The model after a run of polls, and the transitions emitted, in order.
    pub open spec fn run(self, polls: Seq<Poll>) -> (EngineModel, Seq<Occupancy>)
        decreases polls.len(),
    {
        if polls.len() == 0 {
            (self, Seq::empty())
        } else {
            let (next, out) = self.poll(polls[0].now, polls[0].event);
            let (last, rest) = next.run(polls.drop_first());
            match out {
                Some(to) => (last, seq![to] + rest),
                None => (last, rest),
            }
        }
    }
}

/// The debounce/hysteresis engine: the single owner of the occupancy state.
pub struct Engine {
    state: Occupancy,
    last_accepted: Option<u64>,
    entry_debounce: u64,
    exit_hysteresis: u64,
}

impl View for Engine {
    type V = EngineModel;

    closed spec fn view(&self) -> EngineModel {
        EngineModel {
            state: self.state,
            last_accepted: self.last_accepted,
            entry_debounce: self.entry_debounce,
            exit_hysteresis: self.exit_hysteresis,
        }
    }
}

impl Engine {
    /// An idle engine that has seen no detection, with the timing of
    /// `settings`; refused where the settings are.
    pub fn new(settings: &Settings) -> (r: Result<Engine, SettingsError>)
        ensures
            match r {
                Ok(engine) => {
                    &&& settings_error(*settings).is_none()
                    &&& engine@ == EngineModel::initial(
                        settings.entry_debounce_ms,
                        settings.exit_hysteresis_ms,
                    )
                    &&& engine@.wf()
                },
                Err(e) => settings_error(*settings) == Some(e),
            },
    {
        match settings.validate() {
            Err(e) => Err(e),
            Ok(()) => Ok(Engine {
                state: Occupancy::Idle,
                last_accepted: None,
                entry_debounce: settings.entry_debounce_ms,
                exit_hysteresis: settings.exit_hysteresis_ms,
            }),
        }
    }

    /// The current occupancy state.
    pub fn state(&self) -> (r: Occupancy)
        ensures
            r == self@.state,
    {
        self.state
    }

    /// The time of the most recent accepted detection, if any.
    pub fn last_accepted(&self) -> (r: Option<u64>)
        ensures
            r == self@.last_accepted,
    {
        self.last_accepted
    }

    /// One iteration of the engine's loop at time `now`, with the detection
    /// drained from the channel, if there was one.
    ///
    /// First the detection: if it passes the entry debounce it is accepted,
    /// its time recorded, and the state becomes active; if not, it is
    /// discarded. Then the countdown: an active state more than
    /// `exit_hysteresis` after the last accepted detection goes idle. At most
    /// one transition comes out.
    pub fn poll(&mut self, now: u64, event: Option<&DetectionEvent>) -> (r: Option<TransitionIntent>)
        requires
            old(self)@.wf(),
            old(self)@.admits(now),
        ensures
            final(self)@ == old(self)@.poll(now, event.is_some()).0,
            r.is_some() == old(self)@.poll(now, event.is_some()).1.is_some(),
            r.is_some() ==> r.unwrap().to == old(self)@.poll(now, event.is_some()).1.unwrap(),
            r.is_some() ==> r.unwrap().at == now,
            final(self)@.wf(),
    {
        let mut intent: Option<TransitionIntent> = None;
        if event.is_some() {
            let accepted = match self.last_accepted {
                None => true,
                Some(t) => now - t > self.entry_debounce,
            };
            if accepted {
                self.last_accepted = Some(now);
                if self.state == Occupancy::Idle {
                    self.state = Occupancy::Active;
                    intent = Some(TransitionIntent { to: Occupancy::Active, at: now });
                }
            }
        }
        if self.state == Occupancy::Active {
            match self.last_accepted {
                Some(t) => {
                    if now - t > self.exit_hysteresis {
                        self.state = Occupancy::Idle;
                        intent = Some(TransitionIntent { to: Occupancy::Idle, at: now });
                    }
                },
                None => {},
            }
        }
        intent
    }
}

} // verus!

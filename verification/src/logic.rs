use vstd::prelude::*;
use std::collections::VecDeque;
use crate::clock::now_millis;
use crate::magnitude::{calculate_g_force, detect_impact, g_force, is_impact};
use crate::model::SensorData;
use crate::variance::{
    calculate_variance,
    is_still,
    MAX_BUFFER_LEN,
    STILLNESS_THRESHOLD_VARIANCE,
};

verus! {

/// How long an episode stays open after the impact, in milliseconds.
pub const BUFFER_DURATION_MS: i64 = 2000;

/// What the engine reports for one sample.
#[derive(Clone, Copy, Debug, PartialEq, Eq, Structural)]
pub enum DetectionEvent {
    /// An impact opened an episode.
    Validating,
    /// The episode ended in stillness; `g_force` is its peak, in thousandths
    /// of standard gravity.
    CriticalFall { g_force: u64 },
    /// The episode ended with the subject still moving.
    NearMiss,
}

/// The engine's state.
pub enum State {
    Monitoring,
    PreAlert { start_time: i64, buffer: VecDeque<SensorData>, max_g: u64 },
}

/// The engine's state as a mathematical value.
pub enum EngineState {
    /// Steady state: nothing is buffered.
    Monitoring,
    /// An open episode: when it began, the samples received since the impact
    /// in arrival order, and the peak g-force so far.
    PreAlert { start_time: int, buffer: Seq<SensorData>, max_g: int },
}

impl View for State {
    type V = EngineState;

    open spec fn view(&self) -> EngineState {
        match *self {
            State::Monitoring => EngineState::Monitoring,
            State::PreAlert { start_time, buffer, max_g } => EngineState::PreAlert {
                start_time: start_time as int,
                buffer: buffer@,
                max_g: max_g as int,
            },
        }
    }
}

impl EngineState {
    /// How many samples the open episode holds; 0 while monitoring.
    pub open spec fn buffered(self) -> nat {
        match self {
            EngineState::Monitoring => 0,
            EngineState::PreAlert { buffer, .. } => buffer.len(),
        }
    }

    /// The peak g-force of the open episode, if one is open.
    pub open spec fn peak(self) -> Option<u64> {
        match self {
            EngineState::Monitoring => None,
            EngineState::PreAlert { max_g, .. } => Some(max_g as u64),
        }
    }
}

/// The g-force of a sample.
pub open spec fn sample_g_force(data: SensorData) -> int {
    g_force(data.x as int, data.y as int, data.z as int)
}

/// Whether a sample is an impact.
pub open spec fn sample_is_impact(data: SensorData) -> bool {
    is_impact(data.x as int, data.y as int, data.z as int)
}

/// The verdict on a window that has run its time, with the episode's peak.
pub open spec fn verdict(buffer: Seq<SensorData>, max_g: int) -> DetectionEvent {
    if is_still(buffer) {
        DetectionEvent::CriticalFall { g_force: max_g as u64 }
    } else {
        DetectionEvent::NearMiss
    }
}

/// One step of the engine: the state after a sample that arrives at `now`,
/// and the event it gives rise to.
pub open spec fn step(state: EngineState, data: SensorData, now: int) -> (
    EngineState,
    Option<DetectionEvent>,
) {
    let g = sample_g_force(data);
    match state {
        EngineState::Monitoring => {
            if sample_is_impact(data) {
                (
                    EngineState::PreAlert { start_time: now, buffer: Seq::empty(), max_g: g },
                    Some(DetectionEvent::Validating),
                )
            } else {
                (EngineState::Monitoring, None)
            }
        },
        EngineState::PreAlert { start_time, buffer, max_g } => {
            let peak = if g > max_g {
                g
            } else {
                max_g
            };
            let window = buffer.push(data);
            if now - start_time >= BUFFER_DURATION_MS as int {
                (EngineState::Monitoring, Some(verdict(window, peak)))
            } else {
                (EngineState::PreAlert { start_time, buffer: window, max_g: peak }, None)
            }
        },
    }
}

/// The verdict on a window that has run its time.
pub fn judge(buffer: &VecDeque<SensorData>, max_g: u64) -> (event: DetectionEvent)
    requires
        buffer@.len() <= MAX_BUFFER_LEN,
    ensures
        event == verdict(buffer@, max_g as int),
{
    let variance: u128 = calculate_variance(buffer);
    if variance < STILLNESS_THRESHOLD_VARIANCE {
        DetectionEvent::CriticalFall { g_force: max_g }
    } else {
        DetectionEvent::NearMiss
    }
}

/// The detection engine of one connection.
pub struct FallDetector {
    state: State,
}

impl View for FallDetector {
    type V = EngineState;

    closed spec fn view(&self) -> EngineState {
        self.state@
    }
}

impl FallDetector {
    /// An engine in the steady state.
    pub fn new() -> (detector: Self)
        ensures
            detector@ == EngineState::Monitoring,
    {
        FallDetector { state: State::Monitoring }
    }

    /// Whether the engine is in the steady state.
    pub fn is_monitoring(&self) -> (r: bool)
        ensures
            r == (self@ == EngineState::Monitoring),
    {
        match &self.state {
            State::Monitoring => true,
            State::PreAlert { .. } => false,
        }
    }

    /// How many samples the open episode holds; 0 while monitoring.
    pub fn buffered(&self) -> (n: usize)
        ensures
            n == self@.buffered(),
    {
        match &self.state {
            State::Monitoring => 0,
            State::PreAlert { buffer, .. } => buffer.len(),
        }
    }

    /// The peak g-force of the open episode, if one is open.
    pub fn peak(&self) -> (p: Option<u64>)
        ensures
            p == self@.peak(),
    {
        match &self.state {
            State::Monitoring => None,
            State::PreAlert { max_g, .. } => Some(*max_g),
        }
    }

    /// Takes one sample that arrives at `now` (milliseconds on the wall
    /// clock): the engine moves as `step` says and reports its event.
    pub fn process_at(&mut self, data: SensorData, now: i64) -> (event: Option<DetectionEvent>)
        requires
            old(self)@.buffered() < MAX_BUFFER_LEN,
        ensures
            (final(self)@, event) == step(old(self)@, data, now as int),
    {
        let g: u64 = calculate_g_force(data.x, data.y, data.z);
        let mut state = State::Monitoring;
        core::mem::swap(&mut self.state, &mut state);
        match state {
            State::Monitoring => {
                if detect_impact(data.x, data.y, data.z) {
                    self.state = State::PreAlert {
                        start_time: now,
                        buffer: VecDeque::new(),
                        max_g: g,
                    };
                    Some(DetectionEvent::Validating)
                } else {
                    None
                }
            },
            State::PreAlert { start_time, buffer, max_g } => {
                let mut buffer = buffer;
                let peak: u64 = if g > max_g {
                    g
                } else {
                    max_g
                };
                buffer.push_back(data);
                let elapsed: i128 = now as i128 - start_time as i128;
                if elapsed >= BUFFER_DURATION_MS as i128 {
                    Some(judge(&buffer, peak))
                } else {
                    self.state = State::PreAlert { start_time, buffer, max_g: peak };
                    None
                }
            },
        }
    }

    /// Takes one sample that arrives now: reads the wall clock and moves as
    /// `process_at` does at that instant.
    pub fn process(&mut self, data: SensorData) -> (event: Option<DetectionEvent>)
        requires
            old(self)@.buffered() < MAX_BUFFER_LEN,
        ensures
            exists|now: int|
                i64::MIN <= now <= i64::MAX && (final(self)@, event) == #[trigger] step(
                    old(self)@,
                    data,
                    now,
                ),
    {
        let now: i64 = now_millis();
        let event = self.process_at(data, now);
        assert((self@, event) == step(old(self)@, data, now as int));
        event
    }
}

} // verus!

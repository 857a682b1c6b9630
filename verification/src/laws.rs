use vstd::prelude::*;
use crate::logic::{
    sample_g_force,
    sample_is_impact,
    step,
    verdict,
    DetectionEvent,
    EngineState,
    BUFFER_DURATION_MS,
};
use crate::magnitude::{above_threshold, lemma_g_force_bounds, lemma_square_monotone};
use crate::model::{recognize, Axis, SensorData};
use crate::session::{classified, dispatch, react, Control, Effect, Inbound, Incoming};
use crate::variance::{is_still, lemma_spread_nonnegative, prefix_spread, variance};

verus! {

/// The peak of an episode: the greatest g-force among the sample that opened
/// it and the samples received since.
pub open spec fn episode_peak(first: SensorData, rest: Seq<SensorData>) -> int
    decreases rest.len(),
{
    if rest.len() == 0 {
        sample_g_force(first)
    } else {
        let before = episode_peak(first, rest.drop_last());
        let last = sample_g_force(rest.last());
        if last > before {
            last
        } else {
            before
        }
    }
}

/// The state of an episode that `first` opened at `start_time` and that has
/// received `rest` since.
pub open spec fn episode(first: SensorData, start_time: int, rest: Seq<SensorData>) -> EngineState {
    EngineState::PreAlert { start_time, buffer: rest, max_g: episode_peak(first, rest) }
}

/// The state after a run of samples, each with its arrival time.
pub open spec fn run(state: EngineState, samples: Seq<SensorData>, times: Seq<int>) -> EngineState
    decreases samples.len(),
{
    if samples.len() == 0 {
        state
    } else {
        step(run(state, samples.drop_last(), times.drop_last()), samples.last(), times.last()).0
    }
}

/// The g-force depends on the three components alone: two samples that agree
/// on them have the same g-force, whatever their other fields hold.
pub proof fn law_g_force_of_components(a: SensorData, b: SensorData)
    requires
        a.x == b.x,
        a.y == b.y,
        a.z == b.z,
    ensures
        sample_g_force(a) == sample_g_force(b),
{
}

/// The impact test is made on the exact magnitude, the g-force is that
/// magnitude rounded down to thousandths: a sample whose g-force is above the
/// threshold is an impact, and the g-force of an impact is no less than the
/// threshold.
pub proof fn law_impact_and_g_force(data: SensorData)
    ensures
        sample_g_force(data) >= 0,
        above_threshold(sample_g_force(data)) ==> sample_is_impact(data),
        sample_is_impact(data) ==> sample_g_force(data) >= 1600,
{
    let g = sample_g_force(data);
    lemma_g_force_bounds(data.x as int, data.y as int, data.z as int);
    if g >= 1601 {
        lemma_square_monotone(98 * 1600int, 98 * g);
        assert((98 * 1600int) * (98 * 1600int) < (98 * 1601int) * (98 * 1601int))
            by (nonlinear_arith);
        lemma_square_monotone(98 * 1601int, 98 * g);
    }
    if g < 1600 {
        lemma_square_monotone(98 * (g + 1), 98 * 1600int);
    }
}

/// The variance of a window is never negative, and an empty window is still.
pub proof fn law_variance_nonnegative(buf: Seq<SensorData>)
    ensures
        variance(buf) >= 0,
        buf.len() == 0 ==> variance(buf) == 0 && is_still(buf),
{
    if buf.len() > 0 {
        let n = buf.len() as int;
        lemma_spread_nonnegative(buf, Axis::X, buf.len());
        lemma_spread_nonnegative(buf, Axis::Y, buf.len());
        lemma_spread_nonnegative(buf, Axis::Z, buf.len());
        let total = prefix_spread(buf, Axis::X, buf.len()) + prefix_spread(buf, Axis::Y, buf.len())
            + prefix_spread(buf, Axis::Z, buf.len());
        assert(total / (n * n) >= 0) by (nonlinear_arith)
            requires
                total >= 0,
                n > 0,
        ;
    }
}

/// A window of one sample has variance 0: a single reading after the impact
/// is judged a fall.
pub proof fn law_single_sample_is_still(buf: Seq<SensorData>)
    requires
        buf.len() == 1,
    ensures
        variance(buf) == 0,
        is_still(buf),
{
    reveal_with_fuel(crate::variance::axis_sum, 2);
    reveal_with_fuel(crate::variance::axis_sum_squares, 2);
    assert(prefix_spread(buf, Axis::X, 1) == 0) by (nonlinear_arith)
        requires
            prefix_spread(buf, Axis::X, 1) == 1 * (0 + buf[0].along(Axis::X) * buf[0].along(
                Axis::X,
            )) - (0 + buf[0].along(Axis::X)) * (0 + buf[0].along(Axis::X)),
    ;
    assert(prefix_spread(buf, Axis::Y, 1) == 0) by (nonlinear_arith)
        requires
            prefix_spread(buf, Axis::Y, 1) == 1 * (0 + buf[0].along(Axis::Y) * buf[0].along(
                Axis::Y,
            )) - (0 + buf[0].along(Axis::Y)) * (0 + buf[0].along(Axis::Y)),
    ;
    assert(prefix_spread(buf, Axis::Z, 1) == 0) by (nonlinear_arith)
        requires
            prefix_spread(buf, Axis::Z, 1) == 1 * (0 + buf[0].along(Axis::Z) * buf[0].along(
                Axis::Z,
            )) - (0 + buf[0].along(Axis::Z)) * (0 + buf[0].along(Axis::Z)),
    ;
}

/// While monitoring, a sample above the threshold opens an episode that
/// starts at its arrival, holds nothing yet and has that sample's g-force as
/// its peak; any other sample changes nothing and reports nothing.
pub proof fn law_monitoring(data: SensorData, now: int)
    ensures
        sample_is_impact(data) ==> step(EngineState::Monitoring, data, now) == (
            episode(data, now, Seq::empty()),
            Some(DetectionEvent::Validating),
        ),
        !sample_is_impact(data) ==> step(EngineState::Monitoring, data, now) == (
            EngineState::Monitoring,
            None::<DetectionEvent>,
        ),
{
}

/// While an episode is open and its time has not run out, a sample is
/// appended to the window, the peak becomes the greatest g-force seen in the
/// whole episode, and nothing is reported.
pub proof fn law_episode_grows(
    first: SensorData,
    start_time: int,
    rest: Seq<SensorData>,
    data: SensorData,
    now: int,
)
    requires
        now - start_time < BUFFER_DURATION_MS,
    ensures
        step(episode(first, start_time, rest), data, now) == (
            episode(first, start_time, rest.push(data)),
            None::<DetectionEvent>,
        ),
{
    assert(rest.push(data).drop_last() =~= rest);
}

/// An episode holds every sample that arrives before its time has run out,
/// in arrival order, and its peak is the greatest g-force among the impact
/// and all of them.
pub proof fn law_episode_holds_every_sample(
    first: SensorData,
    start_time: int,
    rest: Seq<SensorData>,
    times: Seq<int>,
)
    requires
        sample_is_impact(first),
        times.len() == rest.len(),
        forall|i: int| 0 <= i < times.len() ==> #[trigger] times[i] - start_time < BUFFER_DURATION_MS,
    ensures
        run(step(EngineState::Monitoring, first, start_time).0, rest, times) == episode(
            first,
            start_time,
            rest,
        ),
    decreases rest.len(),
{
    if rest.len() > 0 {
        let front = times.drop_last();
        assert forall|i: int| 0 <= i < front.len() implies #[trigger] front[i] - start_time
            < BUFFER_DURATION_MS by {
            assert(front[i] == times[i]);
        }
        assert(times[times.len() - 1] - start_time < BUFFER_DURATION_MS);
        law_episode_holds_every_sample(first, start_time, rest.drop_last(), front);
        law_episode_grows(first, start_time, rest.drop_last(), rest.last(), times.last());
        assert(rest.drop_last().push(rest.last()) =~= rest);
    } else {
        assert(rest =~= Seq::empty());
    }
}

/// The sample that arrives once an episode's time has run out ends it: the
/// engine is back in the steady state, and the event is the verdict on the
/// whole window, which for a fall carries the greatest g-force of the whole
/// episode, not that of the first or the last sample alone.
pub proof fn law_episode_ends(
    first: SensorData,
    start_time: int,
    rest: Seq<SensorData>,
    data: SensorData,
    now: int,
)
    requires
        now - start_time >= BUFFER_DURATION_MS,
    ensures
        step(episode(first, start_time, rest), data, now) == (
            EngineState::Monitoring,
            Some(verdict(rest.push(data), episode_peak(first, rest.push(data)))),
        ),
        is_still(rest.push(data)) ==> step(episode(first, start_time, rest), data, now).1 == Some(
            DetectionEvent::CriticalFall { g_force: episode_peak(first, rest.push(data)) as u64 },
        ),
        !is_still(rest.push(data)) ==> step(episode(first, start_time, rest), data, now).1 == Some(
            DetectionEvent::NearMiss,
        ),
{
    assert(rest.push(data).drop_last() =~= rest);
}

/// The peak of an episode is at least the g-force of each of its samples,
/// and is the g-force of one of them.
pub proof fn law_peak_is_maximum(first: SensorData, rest: Seq<SensorData>)
    ensures
        episode_peak(first, rest) >= sample_g_force(first),
        forall|i: int|
            0 <= i < rest.len() ==> episode_peak(first, rest) >= sample_g_force(#[trigger] rest[i]),
        episode_peak(first, rest) == sample_g_force(first) || exists|i: int|
            0 <= i < rest.len() && episode_peak(first, rest) == sample_g_force(#[trigger] rest[i]),
    decreases rest.len(),
{
    if rest.len() > 0 {
        let front = rest.drop_last();
        law_peak_is_maximum(first, front);
        assert forall|i: int| 0 <= i < rest.len() implies episode_peak(first, rest)
            >= sample_g_force(#[trigger] rest[i]) by {
            if i < front.len() {
                assert(front[i] == rest[i]);
            }
        }
        if episode_peak(first, rest) != sample_g_force(first) {
            if episode_peak(first, rest) == sample_g_force(rest.last()) {
                assert(rest[rest.len() - 1] == rest.last());
            } else {
                let i = choose|i: int|
                    0 <= i < front.len() && episode_peak(first, front) == sample_g_force(
                        #[trigger] front[i],
                    );
                assert(front[i] == rest[i]);
            }
        }
    }
}

/// However an open episode ends or goes on, its peak never falls and its
/// window only grows: after a sample the engine is either back in the steady
/// state or holds the old window with that sample appended and a peak no
/// lower than before.
pub proof fn law_open_episode_is_monotone(
    start_time: int,
    buffer: Seq<SensorData>,
    max_g: int,
    data: SensorData,
    now: int,
)
    ensures
        match step(EngineState::PreAlert { start_time, buffer, max_g }, data, now).0 {
            EngineState::Monitoring => now - start_time >= BUFFER_DURATION_MS,
            EngineState::PreAlert { start_time: s, buffer: b, max_g: m } => {
                &&& now - start_time < BUFFER_DURATION_MS
                &&& s == start_time
                &&& b == buffer.push(data)
                &&& m >= max_g
                &&& m >= sample_g_force(data)
            },
        },
{
}

/// After an episode has ended, with either verdict, the engine is in the
/// steady state, and an impact that arrives next opens a new episode at once.
pub proof fn law_new_episode_after_verdict(
    start_time: int,
    buffer: Seq<SensorData>,
    max_g: int,
    last: SensorData,
    now: int,
    impact: SensorData,
    later: int,
)
    requires
        now - start_time >= BUFFER_DURATION_MS,
        sample_is_impact(impact),
    ensures
        step(EngineState::PreAlert { start_time, buffer, max_g }, last, now).0
            == EngineState::Monitoring,
        step(EngineState::PreAlert { start_time, buffer, max_g }, last, now).1 is Some,
        step(
            step(EngineState::PreAlert { start_time, buffer, max_g }, last, now).0,
            impact,
            later,
        ) == (episode(impact, later, Seq::empty()), Some(DetectionEvent::Validating)),
{
}

/// A payload that decodes as a command with a recognized action is treated
/// as that command even where it also decodes as a sample: the engine does
/// not see the sample, and the effects are the command's alone.
pub proof fn law_command_before_sample(
    state: EngineState,
    action: Seq<char>,
    sample: Option<SensorData>,
    now: int,
)
    requires
        recognize(action) is Some,
    ensures
        classified(Some(action), sample) == Inbound::Command(recognize(action)->0),
        classified(Some(action), sample) == classified(Some(action), None),
        dispatch(state, classified(Some(action), sample), now) == dispatch(
            state,
            classified(Some(action), None),
            now,
        ),
        dispatch(state, classified(Some(action), sample), now).0 == state,
{
}

/// A payload that matches neither schema leaves the engine as it was and
/// sends nothing onto the bus and nothing to the log: the one effect is the
/// diagnostic.
pub proof fn law_unknown_payload_is_dropped(state: EngineState, action: Option<Seq<char>>, now: int)
    requires
        action is Some ==> recognize(action->0) is None,
    ensures
        classified(action, None) == Inbound::Unknown,
        dispatch(state, classified(action, None), now) == (state, seq![Effect::Diagnostic]),
        react(state, Incoming::Text(classified(action, None)), now) == (
            state,
            seq![Effect::Diagnostic],
            Control::Continue,
        ),
{
}

/// Every decoded sample is relayed: whatever the engine reports, the last
/// effect of a sample is the relay of the raw payload.
pub proof fn law_sample_is_relayed(state: EngineState, data: SensorData, now: int)
    ensures
        dispatch(state, Inbound::Sample(data), now).0 == step(state, data, now).0,
        dispatch(state, Inbound::Sample(data), now).1.len() >= 1,
        dispatch(state, Inbound::Sample(data), now).1.last() == Effect::Broadcast(
            crate::session::Outbound::Relay,
        ),
{
}

} // verus!

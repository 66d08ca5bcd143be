//! The decisions of the background sampler.
//!
//! The sampler alternates outside work (refreshing counters, sleeping,
//! reading the clock, publishing) with decisions. The decisions live here,
//! as a state machine: the caller performs the action it is handed and
//! reports the event that ended it.
//!
//! Time is a reading of the caller's monotonic clock, in nanoseconds since
//! an origin of the caller's choice.

use crate::snapshot::{lemma_of_sample, RawSample, SystemInfo};
use vstd::prelude::*;

verus! {

/// How long the sampler sleeps after the warm-up refresh, in milliseconds.
pub const WARM_UP_DELAY_MILLIS: u64 = 200;

/// How long the sampler sleeps between two looks at the clock, in
/// milliseconds.
pub const TICK_MILLIS: u64 = 200;

/// The least time between two full refreshes, in nanoseconds.
pub const REFRESH_INTERVAL_NANOS: u128 = 2_000_000_000;

/// Where the sampler stands between two pieces of outside work.
#[derive(Clone, Copy, Debug, PartialEq, Eq, Structural)]
pub enum SamplerPhase {
    /// The warm-up refresh of all counters is under way.
    WarmingUp,
    /// A sleep is under way.
    Sleeping,
    /// A full refresh is under way.
    Sampling,
    /// A snapshot has been handed out for publishing.
    Publishing,
}

/// What the caller reports when a piece of outside work has ended.
#[derive(Clone, Copy, Debug, PartialEq, Eq, Structural)]
pub enum SamplerEvent {
    /// The warm-up refresh has completed.
    WarmedUp,
    /// A sleep has ended; `now` is the clock read after it.
    Woke { now: u128 },
    /// A full refresh has completed with these readings.
    Sampled { sample: RawSample },
    /// The publish has been attempted, stored or skipped; `now` is the clock
    /// read after it.
    Published { now: u128 },
}

/// What the caller is to do next.
#[derive(Clone, Copy, Debug, PartialEq, Eq, Structural)]
pub enum SamplerAction {
    /// Refresh all counters once, so that later CPU readings have a prior
    /// sample to differ from.
    WarmUp,
    /// Sleep for `millis` milliseconds, then read the clock.
    Sleep { millis: u64 },
    /// Refresh CPU counters, memory counters and the process table, then
    /// read them.
    Sample,
    /// Publish `snapshot` to the store, then read the clock.
    Publish { snapshot: SystemInfo },
}

/// The sampler was handed an event that does not end the work it had asked
/// for. The sampler is left as it was.
#[derive(Clone, Copy, Debug, PartialEq, Eq, Structural)]
pub struct UnexpectedEvent {
    /// The phase in which the event arrived.
    pub phase: SamplerPhase,
}

/// The state of a sampler, as contracts speak of it.
pub ghost struct SamplerView {
    pub phase: SamplerPhase,
    /// The clock reading at the start or after the latest publish.
    pub last_update: u128,
}

/// Time passed between the readings `last_update` and `now`; zero when the
/// clock appears to have gone back.
pub open spec fn elapsed_nanos(last_update: u128, now: u128) -> nat {
    if now >= last_update {
        (now - last_update) as nat
    } else {
        0
    }
}

/// Whether a full refresh is due at `now`.
pub open spec fn refresh_due(last_update: u128, now: u128) -> bool {
    elapsed_nanos(last_update, now) >= REFRESH_INTERVAL_NANOS
}

/// The state in which monitoring starts at clock reading `now`.
pub open spec fn start_state(now: u128) -> SamplerView {
    SamplerView { phase: SamplerPhase::WarmingUp, last_update: now }
}

/// Whether `event` ends the work that a sampler in `phase` has asked for.
pub open spec fn accepts(phase: SamplerPhase, event: SamplerEvent) -> bool {
    match (phase, event) {
        (SamplerPhase::WarmingUp, SamplerEvent::WarmedUp) => true,
        (SamplerPhase::Sleeping, SamplerEvent::Woke { .. }) => true,
        (SamplerPhase::Sampling, SamplerEvent::Sampled { .. }) => true,
        (SamplerPhase::Publishing, SamplerEvent::Published { .. }) => true,
        _ => false,
    }
}

/// The state that follows `state` on `event`. An event that is not
/// accepted changes nothing.
pub open spec fn next_state(state: SamplerView, event: SamplerEvent) -> SamplerView {
    match (state.phase, event) {
        (SamplerPhase::WarmingUp, SamplerEvent::WarmedUp) => SamplerView {
            phase: SamplerPhase::Sleeping,
            ..state
        },
        (SamplerPhase::Sleeping, SamplerEvent::Woke { now }) => SamplerView {
            phase: if refresh_due(state.last_update, now) {
                SamplerPhase::Sampling
            } else {
                SamplerPhase::Sleeping
            },
            ..state
        },
        (SamplerPhase::Sampling, SamplerEvent::Sampled { .. }) => SamplerView {
            phase: SamplerPhase::Publishing,
            ..state
        },
        (SamplerPhase::Publishing, SamplerEvent::Published { now }) => SamplerView {
            phase: SamplerPhase::Sleeping,
            last_update: now,
        },
        _ => state,
    }
}

/// What a sampler in `state` answers to `event`.
pub open spec fn answer(state: SamplerView, event: SamplerEvent) -> Result<
    SamplerAction,
    UnexpectedEvent,
> {
    match (state.phase, event) {
        (SamplerPhase::WarmingUp, SamplerEvent::WarmedUp) => Ok(
            SamplerAction::Sleep { millis: WARM_UP_DELAY_MILLIS },
        ),
        (SamplerPhase::Sleeping, SamplerEvent::Woke { now }) => {
            if refresh_due(state.last_update, now) {
                Ok(SamplerAction::Sample)
            } else {
                Ok(SamplerAction::Sleep { millis: TICK_MILLIS })
            }
        },
        (SamplerPhase::Sampling, SamplerEvent::Sampled { sample }) => Ok(
            SamplerAction::Publish { snapshot: SystemInfo::of_sample(sample) },
        ),
        (SamplerPhase::Publishing, SamplerEvent::Published { .. }) => Ok(
            SamplerAction::Sleep { millis: TICK_MILLIS },
        ),
        _ => Err(UnexpectedEvent { phase: state.phase }),
    }
}

/// The sampler: what it is waiting for, and when it last published.
#[derive(Clone, Copy, Debug, PartialEq, Eq, Structural)]
pub struct Sampler {
    phase: SamplerPhase,
    last_update: u128,
}

impl View for Sampler {
    type V = SamplerView;

    closed spec fn view(&self) -> SamplerView {
        SamplerView { phase: self.phase, last_update: self.last_update }
    }
}

/// Whether a full refresh is due at `now`, the last one having ended at
/// `last_update`.
pub fn is_refresh_due(last_update: u128, now: u128) -> (due: bool)
    ensures
        due == refresh_due(last_update, now),
{
    now >= last_update && now - last_update >= REFRESH_INTERVAL_NANOS
}

/// Starts the monitoring: returns a sampler whose interval runs from `now`,
/// and the first thing to do, the warm-up refresh.
pub fn start_system_monitoring(now: u128) -> (started: (Sampler, SamplerAction))
    ensures
        started.0@ == start_state(now),
        started.1 == SamplerAction::WarmUp,
{
    (Sampler { phase: SamplerPhase::WarmingUp, last_update: now }, SamplerAction::WarmUp)
}

impl Sampler {
    /// The phase the sampler is in.
    pub fn phase(&self) -> (phase: SamplerPhase)
        ensures
            phase == self@.phase,
    {
        self.phase
    }

    /// The clock reading from which the current interval runs.
    pub fn last_update(&self) -> (last_update: u128)
        ensures
            last_update == self@.last_update,
    {
        self.last_update
    }

    /// Takes the event that ended the work asked for and answers with the
    /// next thing to do. An event that does not fit the phase is refused
    /// and changes nothing.
    pub fn step(&mut self, event: SamplerEvent) -> (r: Result<SamplerAction, UnexpectedEvent>)
        ensures
            r == answer(old(self)@, event),
            final(self)@ == next_state(old(self)@, event),
            r is Ok <==> accepts(old(self)@.phase, event),
            r is Err ==> final(self)@ == old(self)@,
    {
        match (self.phase, event) {
            (SamplerPhase::WarmingUp, SamplerEvent::WarmedUp) => {
                self.phase = SamplerPhase::Sleeping;
                Ok(SamplerAction::Sleep { millis: WARM_UP_DELAY_MILLIS })
            },
            (SamplerPhase::Sleeping, SamplerEvent::Woke { now }) => {
                if is_refresh_due(self.last_update, now) {
                    self.phase = SamplerPhase::Sampling;
                    Ok(SamplerAction::Sample)
                } else {
                    Ok(SamplerAction::Sleep { millis: TICK_MILLIS })
                }
            },
            (SamplerPhase::Sampling, SamplerEvent::Sampled { sample }) => {
                self.phase = SamplerPhase::Publishing;
                Ok(SamplerAction::Publish { snapshot: SystemInfo::from_sample(&sample) })
            },
            (SamplerPhase::Publishing, SamplerEvent::Published { now }) => {
                self.phase = SamplerPhase::Sleeping;
                self.last_update = now;
                Ok(SamplerAction::Sleep { millis: TICK_MILLIS })
            },
            _ => Err(UnexpectedEvent { phase: self.phase }),
        }
    }
}

/// The state reached from `state` after `events`, in order.
pub open spec fn run(state: SamplerView, events: Seq<SamplerEvent>) -> SamplerView
    decreases events.len(),
{
    if events.len() == 0 {
        state
    } else {
        next_state(run(state, events.drop_last()), events.last())
    }
}

/// The clock reading that `event` carries, if it carries one.
pub open spec fn reading_of(event: SamplerEvent) -> Option<u128> {
    match event {
        SamplerEvent::Woke { now } => Some(now),
        SamplerEvent::Published { now } => Some(now),
        _ => None,
    }
}

/// Whether the clock never goes back along `events`: no reading is below
/// `origin`, and none is below an earlier one.
pub open spec fn clock_is_monotonic(origin: u128, events: Seq<SamplerEvent>) -> bool {
    &&& forall|i: int|
        0 <= i < events.len() ==> (#[trigger] reading_of(events[i]) matches Some(now)
            ==> origin <= now)
    &&& forall|i: int, j: int|
        0 <= i < j < events.len() ==> (#[trigger] reading_of(events[i]) matches Some(earlier)
            ==> (#[trigger] reading_of(events[j]) matches Some(later)
            ==> earlier <= later))
}

/// Whether the `index`-th of `events`, handed to a sampler that started in
/// `state`, is answered with the request for a full refresh.
pub open spec fn asks_for_sample(state: SamplerView, events: Seq<SamplerEvent>, index: int) -> bool {
    &&& 0 <= index < events.len()
    &&& answer(run(state, events.subrange(0, index)), events[index])
        == Ok::<SamplerAction, UnexpectedEvent>(SamplerAction::Sample)
}

/// A full refresh is asked for exactly when a sleep ends at least one
/// refresh interval after the start or the latest publish; a sleep that ends
/// earlier is followed by another sleep, and the state stays as it is.
pub proof fn law_sample_exactly_when_due(state: SamplerView, event: SamplerEvent)
    ensures
        answer(state, event) == Ok::<SamplerAction, UnexpectedEvent>(SamplerAction::Sample)
            <==> (event matches SamplerEvent::Woke { now }
                && state.phase == SamplerPhase::Sleeping
                && elapsed_nanos(state.last_update, now) >= 2_000_000_000),
        (event matches SamplerEvent::Woke { now }
            && state.phase == SamplerPhase::Sleeping
            && elapsed_nanos(state.last_update, now) < 2_000_000_000)
            ==> answer(state, event)
                == Ok::<SamplerAction, UnexpectedEvent>(SamplerAction::Sleep { millis: 200 })
            && next_state(state, event) == state,
{
}

/// The sampler has no final state: in every phase there is an event that it
/// accepts, every accepted event is answered with an action, and a refused
/// event leaves the sampler where it was, still waiting.
pub proof fn law_sampler_never_stops(state: SamplerView, event: SamplerEvent)
    ensures
        exists|awaited: SamplerEvent| accepts(state.phase, awaited),
        accepts(state.phase, event) <==> answer(state, event) is Ok,
        !accepts(state.phase, event) ==> next_state(state, event) == state,
{
    match state.phase {
        SamplerPhase::WarmingUp => {
            assert(accepts(state.phase, SamplerEvent::WarmedUp));
        },
        SamplerPhase::Sleeping => {
            assert(accepts(state.phase, SamplerEvent::Woke { now: 0 }));
        },
        SamplerPhase::Sampling => {
            let sample = arbitrary::<RawSample>();
            assert(accepts(state.phase, SamplerEvent::Sampled { sample }));
        },
        SamplerPhase::Publishing => {
            assert(accepts(state.phase, SamplerEvent::Published { now: 0 }));
        },
    }
}

/// Every sampling pass runs to its end, whatever was read: the readings
/// become the snapshot to publish, and once the publish was attempted the
/// sampler sleeps again, its interval running from the clock reading after
/// the publish. In particular a pass in which the process was not found
/// publishes zero process metrics and the loop goes on.
pub proof fn law_cycle_completes(state: SamplerView, sample: RawSample, now: u128)
    requires
        state.phase == SamplerPhase::Sampling,
    ensures
        answer(state, SamplerEvent::Sampled { sample })
            == Ok::<SamplerAction, UnexpectedEvent>(
            SamplerAction::Publish { snapshot: SystemInfo::of_sample(sample) },
        ),
        sample.process is None ==> SystemInfo::of_sample(sample)@.process_cpu_usage.is_zero()
            && SystemInfo::of_sample(sample)@.process_memory_usage == 0,
        sample.memory_total == 0 ==> SystemInfo::of_sample(sample)@.memory_usage.is_zero(),
        answer(
            next_state(state, SamplerEvent::Sampled { sample }),
            SamplerEvent::Published { now },
        ) == Ok::<SamplerAction, UnexpectedEvent>(SamplerAction::Sleep { millis: 200 }),
        next_state(
            next_state(state, SamplerEvent::Sampled { sample }),
            SamplerEvent::Published { now },
        ) == (SamplerView { phase: SamplerPhase::Sleeping, last_update: now }),
{
    lemma_of_sample(sample);
}

/// Running over `front` and then over `back` is running over both.
proof fn lemma_run_split(state: SamplerView, front: Seq<SamplerEvent>, back: Seq<SamplerEvent>)
    ensures
        run(state, front + back) == run(run(state, front), back),
    decreases back.len(),
{
    if back.len() == 0 {
        assert(front + back =~= front);
    } else {
        assert((front + back).drop_last() =~= front + back.drop_last());
        assert((front + back).last() == back.last());
        lemma_run_split(state, front, back.drop_last());
    }
}

/// Once a pass has begun at a clock reading of at least `lower`, the
/// sampler is either still in that pass or its interval runs from a reading
/// of at least `lower`, as long as no later reading is below `lower`.
proof fn lemma_interval_not_before(state: SamplerView, events: Seq<SamplerEvent>, lower: u128)
    requires
        state.phase == SamplerPhase::Sampling || state.phase == SamplerPhase::Publishing
            || state.last_update >= lower,
        forall|i: int|
            0 <= i < events.len() ==> (#[trigger] reading_of(events[i]) matches Some(now)
                ==> lower <= now),
    ensures
        run(state, events).phase == SamplerPhase::Sampling
            || run(state, events).phase == SamplerPhase::Publishing
            || run(state, events).last_update >= lower,
    decreases events.len(),
{
    if events.len() > 0 {
        let earlier = events.drop_last();
        assert forall|i: int| 0 <= i < earlier.len() implies (#[trigger] reading_of(earlier[i])
            matches Some(now) ==> lower <= now) by {
            assert(earlier[i] == events[i]);
        }
        lemma_interval_not_before(state, earlier, lower);
        assert(reading_of(events[events.len() - 1]) matches Some(now) ==> lower <= now);
    }
}

/// The first full refresh waits for a whole interval: whatever events a
/// sampler started at `origin` is handed, as long as the clock does not go
/// back, it asks for a full refresh only at a reading at least one refresh
/// interval after `origin`.
pub proof fn law_first_refresh_waits(origin: u128, events: Seq<SamplerEvent>, index: int)
    requires
        clock_is_monotonic(origin, events),
        asks_for_sample(start_state(origin), events, index),
    ensures
        reading_of(events[index]) matches Some(now) && now - origin >= 2_000_000_000,
{
    let before = events.subrange(0, index);
    assert forall|i: int| 0 <= i < before.len() implies (#[trigger] reading_of(before[i])
        matches Some(now) ==> origin <= now) by {
        assert(before[i] == events[i]);
    }
    lemma_interval_not_before(start_state(origin), before, origin);
    law_sample_exactly_when_due(run(start_state(origin), before), events[index]);
}

/// Full refreshes keep their distance: whatever events a sampler started at
/// `origin` is handed, as long as the clock does not go back, two requests
/// for a full refresh are at least one refresh interval apart.
pub proof fn law_refreshes_are_spaced(
    origin: u128,
    events: Seq<SamplerEvent>,
    first: int,
    second: int,
)
    requires
        clock_is_monotonic(origin, events),
        first < second,
        asks_for_sample(start_state(origin), events, first),
        asks_for_sample(start_state(origin), events, second),
    ensures
        reading_of(events[first]) matches Some(earlier)
            && (reading_of(events[second]) matches Some(later)
            && later - earlier >= 2_000_000_000),
{
    let start = start_state(origin);
    let front = events.subrange(0, first + 1);
    let between = events.subrange(first + 1, second);
    let at_first = run(start, events.subrange(0, first));
    law_sample_exactly_when_due(at_first, events[first]);
    let earlier = reading_of(events[first])->0;

    assert(front.drop_last() =~= events.subrange(0, first));
    assert(front.last() == events[first]);
    let in_pass = run(start, front);
    assert(in_pass == next_state(at_first, events[first]));
    assert(in_pass.phase == SamplerPhase::Sampling);

    assert forall|i: int| 0 <= i < between.len() implies (#[trigger] reading_of(between[i])
        matches Some(now) ==> earlier <= now) by {
        assert(between[i] == events[first + 1 + i]);
        assert(reading_of(events[first]) is Some);
        if reading_of(events[first + 1 + i]) is Some {
            assert(earlier <= reading_of(events[first + 1 + i])->0);
        }
    }
    lemma_interval_not_before(in_pass, between, earlier);
    lemma_run_split(start, front, between);
    assert(front + between =~= events.subrange(0, second));
    law_sample_exactly_when_due(run(start, events.subrange(0, second)), events[second]);
}

} // verus!

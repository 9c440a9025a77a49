//! The simulation: parameters, a clock and a trace that move together.
//!
//! Every sub-step samples one point from the parameters and the current tick,
//! appends it to the trace and advances the clock by one tick. A frame is a
//! fixed number of sub-steps. A reset empties the trace and puts the clock
//! back to zero; it leaves the parameters alone.
//!
//! What the parameters are and how a point is computed from them is the
//! caller's business: the frame driver takes the sampler as a function and
//! promises with which parameters, at which ticks and in which order it is
//! asked, and where its answers go.

use crate::clock::SimulationClock;
use crate::trace::{segments_of, TraceBuffer};
use vstd::prelude::*;

verus! {

/// Number of sub-steps, and so of new trace points, in one frame.
pub const SUBSTEPS_PER_FRAME: usize = 3;

/// What a simulation is, mathematically: its parameters, the ticks on its
/// clock and the points on its trace.
pub struct SimulationState<C, P> {
    pub parameters: C,
    pub ticks: nat,
    pub points: Seq<P>,
}

impl<C, P> SimulationState<C, P> {
    /// The state before the first sub-step: time zero, nothing drawn.
    pub open spec fn initial(parameters: C) -> Self {
        SimulationState { parameters, ticks: 0, points: Seq::empty() }
    }

    /// The state after a reset: the initial state with the parameters as
    /// they are now.
    pub open spec fn after_reset(self) -> Self {
        Self::initial(self.parameters)
    }

    /// The state after the parameters were replaced by `parameters`.
    pub open spec fn with_parameters(self, parameters: C) -> Self {
        SimulationState { parameters, ticks: self.ticks, points: self.points }
    }

    /// The state after one sub-step that sampled `point`.
    pub open spec fn after_point(self, point: P) -> Self {
        SimulationState {
            parameters: self.parameters,
            ticks: self.ticks + 1,
            points: self.points.push(point),
        }
    }

    /// Whether `later` is this state after exactly `count` sub-steps: the
    /// clock has moved by `count` ticks and the trace has grown by `count`
    /// points, the old points and the parameters staying as they were.
    pub open spec fn steps_to(self, later: Self, count: nat) -> bool {
        &&& later.parameters == self.parameters
        &&& later.ticks == self.ticks + count
        &&& later.points.len() == self.points.len() + count
        &&& later.points.subrange(0, self.points.len() as int) =~= self.points
    }

    /// Whether `later` is this state after one frame whose points were
    /// produced by `sample`: sub-step `k` of the frame, counted from zero,
    /// appended a point that `sample` returned for the parameters and the
    /// tick `self.ticks + k`.
    pub open spec fn frame_to<F: Fn(&C, u64) -> P>(self, sample: F, later: Self) -> bool {
        &&& self.steps_to(later, SUBSTEPS_PER_FRAME as nat)
        &&& forall|i: int|
            self.points.len() <= i < later.points.len() ==> sampled_at(
                sample,
                self.parameters,
                self.ticks + (i - self.points.len()),
                #[trigger] later.points[i],
            )
    }

    /// Whether `sample` may be called with the parameters of this state at
    /// each tick of the frame that starts here.
    pub open spec fn accepts_frame<F: Fn(&C, u64) -> P>(self, sample: F) -> bool {
        forall|tick: u64|
            self.ticks <= tick < self.ticks + SUBSTEPS_PER_FRAME ==> call_requires(
                sample,
                (&self.parameters, tick),
            )
    }
}

/// Whether `point` is a value that `sample` may return for `parameters` and
/// the tick `tick`.
pub open spec fn sampled_at<C, P, F: Fn(&C, u64) -> P>(
    sample: F,
    parameters: C,
    tick: int,
    point: P,
) -> bool {
    0 <= tick <= u64::MAX && call_ensures(sample, (&parameters, tick as u64), point)
}

/// Whether every state of `history` but the first is the state before it
/// after one frame.
pub open spec fn is_frame_history<C, P>(history: Seq<SimulationState<C, P>>) -> bool {
    forall|n: int|
        0 <= n < history.len() - 1 ==> (#[trigger] history[n]).steps_to(
            history[n + 1],
            SUBSTEPS_PER_FRAME as nat,
        )
}

/// The parameters, the clock and the trace of one running simulation.
pub struct Simulation<C, P> {
    parameters: C,
    clock: SimulationClock,
    trace: TraceBuffer<P>,
}

impl<C, P> View for Simulation<C, P> {
    type V = SimulationState<C, P>;

    closed spec fn view(&self) -> SimulationState<C, P> {
        SimulationState {
            parameters: self.parameters,
            ticks: self.clock.spec_ticks(),
            points: self.trace@,
        }
    }
}

impl<C, P> Simulation<C, P> {
    /// The invariant of a simulation: the clock has ticked once for every
    /// point on the trace.
    pub open spec fn wf(&self) -> bool {
        self@.ticks == self@.points.len()
    }

    /// A simulation at time zero with an empty trace.
    pub fn new(parameters: C) -> (sim: Self)
        ensures
            sim.wf(),
            sim@ == SimulationState::<C, P>::initial(parameters),
    {
        Simulation { parameters, clock: SimulationClock::new(), trace: TraceBuffer::new() }
    }

    /// The parameters that the next sub-step will be sampled with.
    pub fn parameters(&self) -> (parameters: &C)
        ensures
            *parameters == self@.parameters,
    {
        &self.parameters
    }

    /// Replaces the parameters. The clock and the trace stay as they are:
    /// points already drawn are not recomputed.
    pub fn set_parameters(&mut self, parameters: C)
        ensures
            final(self)@ == old(self)@.with_parameters(parameters),
            old(self).wf() ==> final(self).wf(),
    {
        self.parameters = parameters;
    }

    /// The tick at which the next point will be sampled.
    pub fn ticks(&self) -> (t: u64)
        ensures
            t == self@.ticks,
    {
        self.clock.ticks()
    }

    /// The trace drawn so far.
    pub fn trace(&self) -> (trace: &TraceBuffer<P>)
        ensures
            trace@ == self@.points,
    {
        &self.trace
    }

    /// Empties the trace and puts the clock back to zero. The parameters are
    /// kept.
    pub fn reset(&mut self)
        ensures
            final(self).wf(),
            final(self)@ == old(self)@.after_reset(),
    {
        self.trace.clear();
        self.clock.reset();
    }

    /// One sub-step: appends `point` to the trace and advances the clock by
    /// one tick.
    pub fn record(&mut self, point: P)
        requires
            old(self).wf(),
        ensures
            final(self).wf(),
            final(self)@ == old(self)@.after_point(point),
    {
        self.trace.push(point);
        proof {
            self.trace.lemma_len_fits();
        }
        self.clock.advance();
    }

    /// One frame: `SUBSTEPS_PER_FRAME` sub-steps, each of which asks `sample`
    /// for the point at the current tick and records it before the next one
    /// runs.
    pub fn advance_frame<F: Fn(&C, u64) -> P>(&mut self, sample: F)
        requires
            old(self).wf(),
            old(self)@.accepts_frame(sample),
        ensures
            final(self).wf(),
            old(self)@.frame_to(sample, final(self)@),
    {
        let ghost start = self@;
        let mut step: usize = 0;
        while step < SUBSTEPS_PER_FRAME
            invariant
                self.wf(),
                step <= SUBSTEPS_PER_FRAME,
                start.accepts_frame(sample),
                start.steps_to(self@, step as nat),
                forall|i: int|
                    start.points.len() <= i < self@.points.len() ==> sampled_at(
                        sample,
                        start.parameters,
                        start.ticks + (i - start.points.len()),
                        #[trigger] self@.points[i],
                    ),
            decreases SUBSTEPS_PER_FRAME - step,
        {
            let tick: u64 = self.clock.ticks();
            let point = sample(&self.parameters, tick);
            self.record(point);
            step = step + 1;
        }
    }
}

impl<C, P: Copy> Simulation<C, P> {
    /// One turn of the animation loop. If `reset_requested`, the simulation
    /// is reset first; then one frame is sampled with `sample`; the result is
    /// the list of line segments that repaints the whole trace, in drawing
    /// order.
    pub fn update<F: Fn(&C, u64) -> P>(&mut self, reset_requested: bool, sample: F) -> (lines: Vec<
        (P, P),
    >)
        requires
            old(self).wf(),
            reset_requested ==> old(self)@.after_reset().accepts_frame(sample),
            !reset_requested ==> old(self)@.accepts_frame(sample),
        ensures
            final(self).wf(),
            reset_requested ==> old(self)@.after_reset().frame_to(sample, final(self)@),
            !reset_requested ==> old(self)@.frame_to(sample, final(self)@),
            lines@ == segments_of(final(self)@.points),
    {
        if reset_requested {
            self.reset();
        }
        self.advance_frame(sample);
        self.trace.segments()
    }
}

/// Frames only add to the trace: after `frames` frames the trace has grown by
/// `frames * SUBSTEPS_PER_FRAME` points and the clock has moved by as many
/// ticks. Counted from the initial state, the trace then holds exactly
/// `frames * SUBSTEPS_PER_FRAME` points.
pub proof fn lemma_frames_fill_trace<C, P>(history: Seq<SimulationState<C, P>>, frames: nat)
    requires
        frames < history.len(),
        is_frame_history(history),
    ensures
        history[frames as int].points.len() == history[0].points.len() + frames
            * SUBSTEPS_PER_FRAME,
        history[frames as int].ticks == history[0].ticks + frames * SUBSTEPS_PER_FRAME,
        history[0] == SimulationState::<C, P>::initial(history[0].parameters) ==> {
            &&& history[frames as int].points.len() == frames * SUBSTEPS_PER_FRAME
            &&& history[frames as int].ticks == frames * SUBSTEPS_PER_FRAME
        },
    decreases frames,
{
    if frames > 0 {
        lemma_frames_fill_trace(history, (frames - 1) as nat);
        assert(history[frames - 1].steps_to(history[frames as int], SUBSTEPS_PER_FRAME as nat));
    }
}

/// A reset gives the initial state with the parameters of the moment,
/// whatever came before; so a second reset changes nothing, and neither does
/// a reset of a simulation that has not yet run.
pub proof fn lemma_reset_is_idempotent<C, P>(state: SimulationState<C, P>)
    ensures
        state.after_reset().after_reset() == state.after_reset(),
        state.after_reset().parameters == state.parameters,
        state.after_reset().points.len() == 0,
        state.after_reset().ticks == 0,
        state.points.len() == 0 && state.ticks == 0 ==> state.after_reset() == state,
{
    if state.points.len() == 0 {
        assert(state.points =~= Seq::<P>::empty());
    }
}

/// The first frame after a reset starts the trace anew at time zero: the
/// trace holds the points of that frame alone, and point `k` was sampled
/// with the parameters of the moment at tick `k`, the first one at tick 0.
pub proof fn lemma_first_sample_after_reset<C, P, F: Fn(&C, u64) -> P>(
    state: SimulationState<C, P>,
    sample: F,
    later: SimulationState<C, P>,
)
    requires
        state.after_reset().frame_to(sample, later),
    ensures
        later.points.len() == SUBSTEPS_PER_FRAME,
        sampled_at(sample, state.parameters, 0, later.points[0]),
        forall|k: int|
            0 <= k < SUBSTEPS_PER_FRAME ==> sampled_at(
                sample,
                state.parameters,
                k,
                #[trigger] later.points[k],
            ),
{
}

/// A sub-step right after a reset runs at tick 0 and leaves a trace of one
/// point, the one it recorded.
pub proof fn lemma_first_point_after_reset<C, P>(state: SimulationState<C, P>, point: P)
    ensures
        state.after_reset().ticks == 0,
        state.after_reset().after_point(point).points == seq![point],
        state.after_reset().after_point(point).ticks == 1,
{
    assert(state.after_reset().after_point(point).points =~= seq![point]);
}

} // verus!

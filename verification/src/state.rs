//! The state machine of the one transition that can run at a time.

use vstd::prelude::*;
use crate::easing::EaseFunction;
use crate::events::NewTransition;
use crate::shader::TransitionDefinition;
use crate::units::{accumulate, is_over, over, progress_after, ONE};

verus! {

/// The timing of a transition as contracts see it.
pub struct Timing {
    pub definition: EaseFunction,
    /// Nanoseconds the transition takes.
    pub duration: u64,
    /// The fraction of the duration that has passed, in fixed point.
    pub progress: u64,
    /// When the transition started, in nanoseconds on the host's clock; `None`
    /// while idle.
    pub started: Option<u64>,
}

/// What one tick of the scheduler did.
#[derive(Clone, Copy, Debug, PartialEq, Eq, Structural)]
pub enum Tick {
    /// No transition was running.
    Idle,
    /// The transition ran out and was finalized.
    Completed,
    /// The transition moved on. The host samples `easing` at `progress` and
    /// hands the outcome to [`TransitionDefinition::drive`].
    Advanced { easing: EaseFunction, progress: u64 },
}

impl Timing {
    /// A running transition has a positive duration.
    pub open spec fn wf(self) -> bool {
        self.started is Some ==> self.duration > 0
    }

    /// Whether the transition has outlasted its duration at `now`.
    pub open spec fn expired(self, now: u64) -> bool {
        self.started matches Some(t) && is_over(t, self.duration, now)
    }

    /// The timing that an accepted request sets, whatever it was before.
    pub open spec fn accepted(request: NewTransition, now: u64) -> Timing {
        Timing {
            definition: request.ease,
            duration: request.duration as u64,
            progress: 0,
            started: Some(now),
        }
    }

    /// The timing after one tick at `now`, `delta` nanoseconds after the
    /// previous one.
    pub open spec fn ticked(self, now: u64, delta: u64) -> Timing {
        if self.started is None {
            self
        } else if self.expired(now) {
            Timing { started: None, progress: 0, ..self }
        } else {
            Timing { progress: progress_after(self.progress, delta, self.duration), ..self }
        }
    }

    /// The timing after a run of frames, each given by its clock and its
    /// delta, with no request in between.
    pub open spec fn after(self, frames: Seq<(u64, u64)>) -> Timing
        decreases frames.len(),
    {
        if frames.len() == 0 {
            self
        } else {
            self.after(frames.drop_last()).ticked(frames.last().0, frames.last().1)
        }
    }

    /// What a tick at `now` reports.
    pub open spec fn tick(self, now: u64, delta: u64) -> Tick {
        if self.started is None {
            Tick::Idle
        } else if self.expired(now) {
            Tick::Completed
        } else {
            Tick::Advanced {
                easing: self.definition,
                progress: progress_after(self.progress, delta, self.duration),
            }
        }
    }
}

/// The state of the scheduler: idle, or running one transition.
#[derive(Clone, Copy, Debug)]
pub struct TransitionState {
    definition: EaseFunction,
    duration: u64,
    progress: u64,
    started: Option<u64>,
}

impl View for TransitionState {
    type V = Timing;

    closed spec fn view(&self) -> Timing {
        Timing {
            definition: self.definition,
            duration: self.duration,
            progress: self.progress,
            started: self.started,
        }
    }
}

impl TransitionState {
    #[verifier::type_invariant]
    spec fn inv(self) -> bool {
        self@.wf()
    }

    /// The timing before any transition: idle, with the progress at one.
    pub open spec fn initial() -> Timing {
        Timing { definition: EaseFunction::Linear, duration: 0, progress: ONE, started: None }
    }

    /// The curve of the current or last transition.
    pub fn definition(&self) -> (e: EaseFunction)
        ensures
            e == self@.definition,
    {
        self.definition
    }

    /// The duration of the current or last transition, in nanoseconds.
    pub fn duration(&self) -> (d: u64)
        ensures
            d == self@.duration,
            self@.wf(),
    {
        proof {
            use_type_invariant(self);
        }
        self.duration
    }

    /// The progress of the running transition, in fixed point.
    pub fn progress(&self) -> (p: u64)
        ensures
            p == self@.progress,
    {
        self.progress
    }

    /// When the running transition started; `None` while idle.
    pub fn started(&self) -> (s: Option<u64>)
        ensures
            s == self@.started,
            self@.wf(),
    {
        proof {
            use_type_invariant(self);
        }
        self.started
    }

    /// Starts a transition at `now`, dropping the one that was running.
    pub(crate) fn restart(&mut self, request: &NewTransition, now: u64)
        requires
            request.valid(),
        ensures
            final(self)@ == Timing::accepted(*request, now),
            final(self)@.wf(),
    {
        *self = TransitionState {
            definition: request.ease,
            duration: request.duration as u64,
            progress: 0,
            started: Some(now),
        };
    }
}

impl Default for TransitionState {
    fn default() -> (s: TransitionState)
        ensures
            s@ == TransitionState::initial(),
            s@.wf(),
    {
        TransitionState { definition: EaseFunction::Linear, duration: 0, progress: ONE, started: None }
    }
}

/// Advances the running transition by one frame, up to the point where the
/// curve has to be sampled. `now` is the host's clock and `delta` the time
/// since the previous frame, both in nanoseconds.
///
/// While idle nothing happens. Once the time since the start exceeds the
/// duration by more than the completion epsilon, the transition is finalized:
/// the state goes idle, progress and driver return to zero, and the target
/// becomes the baseline. Otherwise the progress grows by `delta / duration`,
/// the driver stays as it is, and the result names the curve and the progress
/// to sample.
pub fn advance(
    shader: &mut TransitionDefinition,
    state: &mut TransitionState,
    now: u64,
    delta: u64,
) -> (tick: Tick)
    ensures
        tick == old(state)@.tick(now, delta),
        final(state)@ == old(state)@.ticked(now, delta),
        *final(shader) == old(shader).ticked(old(state)@, now),
        old(state)@.expired(now) ==> final(state)@.started is None && final(state)@.progress == 0
            && final(shader).driver == 0 && final(shader).color1 == old(shader).color2,
        tick is Advanced ==> final(state)@.progress >= old(state)@.progress,
        old(state)@.wf() && final(state)@.wf(),
{
    proof {
        use_type_invariant(&*state);
    }
    let started = match state.started {
        Some(t) => t,
        None => {
            return Tick::Idle;
        },
    };
    if over(started, state.duration, now) {
        state.started = None;
        state.progress = 0;
        shader.driver = 0;
        shader.color1 = shader.color2;
        return Tick::Completed;
    }
    let progress = accumulate(state.progress, delta, state.duration);
    state.progress = progress;
    Tick::Advanced { easing: state.definition, progress }
}

/// One frame of the scheduler: advances the transition as [`advance`] does
/// and, where it moved on, samples the curve at the new progress and writes
/// the outcome into the driver. `sample` evaluates a curve at a progress, both
/// in fixed point; where it has no value the driver keeps the one it had.
pub fn update<F: Fn(EaseFunction, u64) -> Option<i64>>(
    shader: &mut TransitionDefinition,
    state: &mut TransitionState,
    now: u64,
    delta: u64,
    sample: F,
) -> (tick: Tick)
    requires
        forall|easing: EaseFunction, progress: u64| call_requires(sample, (easing, progress)),
    ensures
        tick == old(state)@.tick(now, delta),
        final(state)@ == old(state)@.ticked(now, delta),
        tick matches Tick::Advanced { easing, progress } ==> exists|sampled: Option<i64>|
            call_ensures(sample, (easing, progress), sampled) && *final(shader) == old(
                shader,
            ).driven(sampled),
        !(tick is Advanced) ==> *final(shader) == old(shader).ticked(old(state)@, now),
{
    let tick = advance(shader, state, now, delta);
    if let Tick::Advanced { easing, progress } = tick {
        let sampled = sample(easing, progress);
        shader.drive(sampled);
    }
    tick
}

} // verus!

//! Requests for a transition and their intake.

use vstd::prelude::*;
use crate::easing::EaseFunction;
use crate::shader::{Rgba, TransitionDefinition};
use crate::state::{Timing, TransitionState};
use crate::units::ONE;

verus! {

/// A request to wipe the screen to a colour.
#[derive(Clone, Copy, Debug, PartialEq, Eq)]
pub struct NewTransition {
    /// The direction of the wipe in degrees, in fixed point.
    pub angle: i64,
    /// The target; or, where `color2` is given, the baseline.
    pub color: Rgba,
    /// With a second colour the request sets both ends itself: the transition
    /// runs from `color` to `color2`. Without one it continues from the
    /// current target to `color`.
    pub color2: Option<Rgba>,
    /// How long the transition takes, in nanoseconds. Must be positive.
    pub duration: i64,
    pub ease: EaseFunction,
}

/// Why a request was turned down: its duration is not positive.
#[derive(Clone, Copy, Debug, PartialEq, Eq, Structural)]
pub struct InvalidRequest {
    /// The duration that the request asked for.
    pub duration: i64,
}

impl NewTransition {
    /// A request is valid when its duration is positive.
    pub open spec fn valid(self) -> bool {
        self.duration > 0
    }

    /// Checks the request as intake does, without taking it in.
    pub fn validate(&self) -> (r: Result<(), InvalidRequest>)
        ensures
            r is Ok <==> self.valid(),
            r matches Err(e) ==> e.duration == self.duration,
    {
        if self.duration > 0 {
            Ok(())
        } else {
            Err(InvalidRequest { duration: self.duration })
        }
    }
}

impl Default for NewTransition {
    /// A cut from black to black along angle zero with a linear curve. Its
    /// duration is zero, so it is turned down until a duration is set.
    fn default() -> (request: NewTransition)
        ensures
            request.angle == 0,
            request.color == (Rgba { red: 0, green: 0, blue: 0, alpha: ONE as i64 }),
            request.color2 == Some(request.color),
            request.duration == 0,
            request.ease == EaseFunction::Linear,
    {
        let black = Rgba { red: 0, green: 0, blue: 0, alpha: ONE as i64 };
        NewTransition {
            angle: 0,
            color: black,
            color2: Some(black),
            duration: 0,
            ease: EaseFunction::Linear,
        }
    }
}

/// The record and the timing after the requests of one tick were taken in, in
/// the order they arrived: each valid one restarts the transition from what
/// the requests before it left, and an invalid one changes nothing.
pub open spec fn intake(
    shader: TransitionDefinition,
    timing: Timing,
    events: Seq<NewTransition>,
    now: u64,
) -> (TransitionDefinition, Timing)
    decreases events.len(),
{
    if events.len() == 0 {
        (shader, timing)
    } else {
        let before = intake(shader, timing, events.drop_last(), now);
        if events.last().valid() {
            (before.0.accepted(events.last()), Timing::accepted(events.last(), now))
        } else {
            before
        }
    }
}

/// Whether `error` reports the first request among `events` that is not valid.
pub open spec fn reports_first_invalid(events: Seq<NewTransition>, error: InvalidRequest) -> bool {
    exists|i: int|
        0 <= i < events.len() && !(#[trigger] events[i]).valid() && error.duration
            == events[i].duration && forall|j: int| 0 <= j < i ==> (#[trigger] events[j]).valid()
}

/// Takes in one request at `now`, the host's clock in nanoseconds.
///
/// A request whose duration is not positive is turned down and nothing
/// changes. Any other request starts a transition at once, replacing the one
/// that was running: the colours are set as the request says, the driver and
/// the progress return to zero, and the timing is that of the request.
pub fn submit_transition(
    shader: &mut TransitionDefinition,
    state: &mut TransitionState,
    now: u64,
    request: &NewTransition,
) -> (r: Result<(), InvalidRequest>)
    ensures
        r is Ok <==> request.valid(),
        r matches Err(e) ==> e.duration == request.duration && *final(shader) == *old(shader)
            && *final(state) == *old(state),
        r is Ok ==> *final(shader) == old(shader).accepted(*request) && final(state)@
            == Timing::accepted(*request, now),
        r is Ok && request.color2 is None ==> final(shader).color1 == old(shader).color2
            && final(shader).color2 == request.color,
        r is Ok ==> final(state)@.progress == 0 && final(shader).driver == 0,
{
    if let Err(rejected) = request.validate() {
        return Err(rejected);
    }
    match request.color2 {
        None => {
            shader.color1 = shader.color2;
            shader.color2 = request.color;
        },
        Some(target) => {
            shader.color1 = request.color;
            shader.color2 = target;
        },
    }
    shader.driver = 0;
    shader.movement_angle = request.angle;
    state.restart(request, now);
    Ok(())
}

/// Takes in the requests of one tick, in the order they arrived. The last
/// valid one decides the transition that runs afterwards; nothing is queued.
/// Invalid requests are passed over, and the first of them is reported.
pub fn new(
    new_events: &Vec<NewTransition>,
    shader: &mut TransitionDefinition,
    state: &mut TransitionState,
    now: u64,
) -> (r: Result<(), InvalidRequest>)
    ensures
        (*final(shader), final(state)@) == intake(*old(shader), old(state)@, new_events@, now),
        r is Ok <==> forall|i: int| 0 <= i < new_events@.len() ==> (#[trigger] new_events@[i]).valid(),
        r matches Err(e) ==> reports_first_invalid(new_events@, e),
{
    let mut first: Option<InvalidRequest> = None;
    let mut i: usize = 0;
    while i < new_events.len()
        invariant
            i <= new_events@.len(),
            (*shader, state@) == intake(*old(shader), old(state)@, new_events@.take(i as int), now),
            first is None <==> forall|j: int| 0 <= j < i ==> (#[trigger] new_events@[j]).valid(),
            first matches Some(e) ==> reports_first_invalid(new_events@.take(i as int), e),
        decreases new_events@.len() - i,
    {
        let ghost seen = new_events@.take(i as int);
        let ghost next = new_events@.take(i + 1);
        assert(next.drop_last() == seen);
        proof {
            if let Some(e) = first {
                let k = choose|k: int|
                    0 <= k < seen.len() && !(#[trigger] seen[k]).valid() && e.duration
                        == seen[k].duration && forall|j: int|
                        0 <= j < k ==> (#[trigger] seen[j]).valid();
                assert(next[k] == seen[k]);
            }
        }
        let outcome = submit_transition(shader, state, now, &new_events[i]);
        if let Err(e) = outcome {
            if first.is_none() {
                first = Some(e);
                assert(!next[i as int].valid());
            }
        }
        i += 1;
    }
    assert(new_events@.take(i as int) == new_events@);
    match first {
        None => Ok(()),
        Some(e) => Err(e),
    }
}

} // verus!

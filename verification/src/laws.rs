//! What holds of the scheduler whatever the requests, frames and resizes are.

use vstd::prelude::*;
use crate::events::{intake, NewTransition};
use crate::resize::WindowResized;
use crate::shader::TransitionDefinition;
use crate::state::Timing;
use crate::units::{progress_after, progress_only_grows, COMPLETION_EPSILON, ONE};

verus! {

/// A request without a second colour continues from the current target: the
/// target becomes the baseline and the requested colour the new target.
pub proof fn continuing_request_rolls_target_over(
    shader: TransitionDefinition,
    request: NewTransition,
)
    requires
        request.color2 is None,
    ensures
        shader.accepted(request).color1 == shader.color2,
        shader.accepted(request).color2 == request.color,
{
}

/// A request with a second colour sets both ends itself, whatever the record
/// held.
pub proof fn explicit_request_sets_both_colours(
    shader: TransitionDefinition,
    request: NewTransition,
)
    requires
        request.color2 is Some,
    ensures
        shader.accepted(request).color1 == request.color,
        shader.accepted(request).color2 == request.color2->Some_0,
{
}

/// Within the requests of one tick the rollover starts from what the requests
/// before left: where the last request is valid and has no second colour, the
/// baseline afterwards is the target that the earlier requests set.
pub proof fn last_continuing_request_rolls_over(
    shader: TransitionDefinition,
    timing: Timing,
    events: Seq<NewTransition>,
    now: u64,
)
    requires
        events.len() > 0,
        events.last().valid(),
        events.last().color2 is None,
    ensures
        intake(shader, timing, events, now).0.color1 == intake(
            shader,
            timing,
            events.drop_last(),
            now,
        ).0.color2,
        intake(shader, timing, events, now).0.color2 == events.last().color,
{
}

/// An accepted request overwrites every timing field and returns progress and
/// driver to zero, whether or not a transition was running: the last valid
/// request of a tick decides alone, and nothing of the earlier timing is kept
/// or queued.
pub proof fn last_request_replaces_timing(
    shader: TransitionDefinition,
    timing: Timing,
    events: Seq<NewTransition>,
    now: u64,
)
    requires
        events.len() > 0,
        events.last().valid(),
    ensures
        intake(shader, timing, events, now).1 == Timing::accepted(events.last(), now),
        intake(shader, timing, events, now).1.progress == 0,
        intake(shader, timing, events, now).1.started == Some(now),
        intake(shader, timing, events, now).1.duration == events.last().duration,
        intake(shader, timing, events, now).1.definition == events.last().ease,
        intake(shader, timing, events, now).0.driver == 0,
        intake(shader, timing, events, now).0.movement_angle == events.last().angle,
{
}

/// Requests that are all invalid leave the record and the timing untouched.
pub proof fn invalid_requests_change_nothing(
    shader: TransitionDefinition,
    timing: Timing,
    events: Seq<NewTransition>,
    now: u64,
)
    requires
        forall|i: int| 0 <= i < events.len() ==> !(#[trigger] events[i]).valid(),
    ensures
        intake(shader, timing, events, now) == (shader, timing),
    decreases events.len(),
{
    if events.len() > 0 {
        invalid_requests_change_nothing(shader, timing, events.drop_last(), now);
    }
}

/// Intake keeps the timing well formed, and never touches the resolution.
pub proof fn intake_keeps_timing_well_formed(
    shader: TransitionDefinition,
    timing: Timing,
    events: Seq<NewTransition>,
    now: u64,
)
    requires
        timing.wf(),
    ensures
        intake(shader, timing, events, now).1.wf(),
        intake(shader, timing, events, now).0.resolution == shader.resolution,
    decreases events.len(),
{
    if events.len() > 0 {
        intake_keeps_timing_well_formed(shader, timing, events.drop_last(), now);
    }
}

/// While a transition keeps running its progress never falls, and a tick
/// changes nothing else of its timing.
pub proof fn progress_never_falls_while_running(timing: Timing, now: u64, delta: u64)
    requires
        timing.wf(),
        timing.started is Some,
        !timing.expired(now),
    ensures
        timing.ticked(now, delta).progress >= timing.progress,
        timing.ticked(now, delta).started == timing.started,
        timing.ticked(now, delta).duration == timing.duration,
        timing.ticked(now, delta).definition == timing.definition,
{
    progress_only_grows(timing.progress, delta, timing.duration);
}

/// A transition ends by itself: at the first tick at which the time since its
/// start exceeds its duration by more than the completion epsilon, the state
/// is idle, progress and driver are zero, and the baseline is the target that
/// the record held just before. Until then it keeps running. Once idle, the
/// state stays as it is tick after tick.
pub proof fn transition_ends_after_its_duration(
    shader: TransitionDefinition,
    timing: Timing,
    now: u64,
    delta: u64,
    later: u64,
    later_delta: u64,
)
    requires
        timing.started is Some,
    ensures
        now - timing.started->Some_0 > timing.duration + COMPLETION_EPSILON ==> {
            &&& timing.ticked(now, delta).started is None
            &&& timing.ticked(now, delta).progress == 0
            &&& shader.ticked(timing, now).driver == 0
            &&& shader.ticked(timing, now).color1 == shader.color2
            &&& shader.ticked(timing, now).color2 == shader.color2
            &&& timing.ticked(now, delta).ticked(later, later_delta) == timing.ticked(now, delta)
            &&& shader.ticked(timing, now).ticked(timing.ticked(now, delta), later)
                == shader.ticked(timing, now)
        },
        now - timing.started->Some_0 <= timing.duration + COMPLETION_EPSILON ==> {
            &&& timing.ticked(now, delta).started == timing.started
            &&& shader.ticked(timing, now) == shader
        },
{
}

/// A tick keeps the timing well formed.
pub proof fn tick_keeps_timing_well_formed(timing: Timing, now: u64, delta: u64)
    requires
        timing.wf(),
    ensures
        timing.ticked(now, delta).wf(),
{
}

/// Frames alone never start a transition: an idle scheduler stays exactly as
/// it is over any run of frames.
pub proof fn idle_stays_idle(timing: Timing, frames: Seq<(u64, u64)>)
    requires
        timing.started is None,
    ensures
        timing.after(frames) == timing,
    decreases frames.len(),
{
    if frames.len() > 0 {
        idle_stays_idle(timing, frames.drop_last());
    }
}

/// Over any run of frames without a request, a transition that is still
/// running at the end is the one that was running at the start, and its
/// progress has not fallen.
pub proof fn progress_never_falls_over_frames(timing: Timing, frames: Seq<(u64, u64)>)
    requires
        timing.wf(),
        timing.after(frames).started is Some,
    ensures
        timing.after(frames).progress >= timing.progress,
        timing.after(frames).started == timing.started,
        timing.after(frames).duration == timing.duration,
        timing.after(frames).definition == timing.definition,
    decreases frames.len(),
{
    if frames.len() > 0 {
        let before = timing.after(frames.drop_last());
        let (now, delta) = frames.last();
        assert(timing.after(frames) == before.ticked(now, delta));
        progress_never_falls_over_frames(timing, frames.drop_last());
        progress_never_falls_while_running(before, now, delta);
    }
}

/// Without a further request a transition cannot outlive its duration: once
/// one frame of a run has seen the clock pass the start by more than duration
/// and completion epsilon, the scheduler is idle at the end of the run, with
/// the progress at zero.
pub proof fn overdue_transition_is_idle(timing: Timing, frames: Seq<(u64, u64)>, overdue: int)
    requires
        timing.started is Some,
        0 <= overdue < frames.len(),
        frames[overdue].0 - timing.started->Some_0 > timing.duration + COMPLETION_EPSILON,
    ensures
        timing.after(frames).started is None,
        timing.after(frames).progress == 0,
    decreases frames.len(),
{
    let before = timing.after(frames.drop_last());
    let (now, delta) = frames.last();
    assert(timing.after(frames) == before.ticked(now, delta));
    if overdue < frames.len() - 1 {
        assert(frames.drop_last()[overdue] == frames[overdue]);
        overdue_transition_is_idle(timing, frames.drop_last(), overdue);
    } else {
        still_running_or_reset(timing, frames.drop_last());
    }
}

/// Over frames alone a scheduler either still runs the transition it started
/// with, or is idle with the progress at zero.
proof fn still_running_or_reset(timing: Timing, frames: Seq<(u64, u64)>)
    requires
        timing.started is Some,
    ensures
        timing.after(frames).started is Some ==> timing.after(frames).started == timing.started
            && timing.after(frames).duration == timing.duration,
        timing.after(frames).started is None ==> timing.after(frames).progress == 0,
    decreases frames.len(),
{
    if frames.len() > 0 {
        still_running_or_reset(timing, frames.drop_last());
    }
}

/// A request is running in the very tick that takes it in: a frame at the
/// clock of its intake does not end it, leaves the colours it set, and gives
/// it the progress of that one frame.
pub proof fn accepted_request_runs_in_its_own_tick(
    shader: TransitionDefinition,
    request: NewTransition,
    now: u64,
    delta: u64,
)
    requires
        request.valid(),
    ensures
        Timing::accepted(request, now).wf(),
        Timing::accepted(request, now).ticked(now, delta).started == Some(now),
        Timing::accepted(request, now).ticked(now, delta).progress == progress_after(
            0,
            delta,
            request.duration as u64,
        ),
        shader.accepted(request).ticked(Timing::accepted(request, now), now) == shader.accepted(
            request,
        ),
{
}

/// The frame time that a run of frames adds up to, in nanoseconds.
pub open spec fn frame_time(frames: Seq<(u64, u64)>) -> int
    decreases frames.len(),
{
    if frames.len() == 0 {
        0
    } else {
        frame_time(frames.drop_last()) + frames.last().1
    }
}

/// The progress that `time` nanoseconds of a transition of `duration`
/// nanoseconds come to when the quotient is rounded down once.
pub open spec fn exact_progress(time: int, duration: u64) -> int
    recommends
        duration > 0,
{
    (time * ONE) / (duration as int)
}

/// Progress integrates the frame deltas: over a run of frames that leaves the
/// transition running and the progress below the top of its range, the
/// progress gained never runs ahead of frame time over duration, and rounding
/// holds it back by less than one billionth a frame.
pub proof fn progress_tracks_frame_time(timing: Timing, frames: Seq<(u64, u64)>)
    requires
        timing.wf(),
        timing.after(frames).started is Some,
        timing.after(frames).progress < u64::MAX,
    ensures
        frame_time(frames) >= 0,
        timing.after(frames).progress - timing.progress <= exact_progress(
            frame_time(frames),
            timing.duration,
        ),
        timing.after(frames).progress - timing.progress >= exact_progress(
            frame_time(frames),
            timing.duration,
        ) - frames.len(),
    decreases frames.len(),
{
    let d = timing.duration as int;
    if frames.len() == 0 {
        assert((0 * ONE) / d == 0) by (nonlinear_arith)
            requires
                d > 0,
        ;
    } else {
        let earlier = frames.drop_last();
        let before = timing.after(earlier);
        let (now, delta) = frames.last();
        assert(timing.after(frames) == before.ticked(now, delta));
        progress_never_falls_over_frames(timing, frames);
        progress_never_falls_while_running(before, now, delta);
        progress_tracks_frame_time(timing, earlier);
        let a = frame_time(earlier) * ONE;
        let b = delta * ONE;
        assert(frame_time(frames) * ONE == a + b) by (nonlinear_arith)
            requires
                frame_time(frames) == frame_time(earlier) + delta,
                a == frame_time(earlier) * ONE,
                b == delta * ONE,
        ;
        assert(a >= 0 && b >= 0) by (nonlinear_arith)
            requires
                frame_time(earlier) >= 0,
                delta >= 0,
                ONE > 0,
                a == frame_time(earlier) * ONE,
                b == delta * ONE,
        ;
        quotient_of_sum(a, b, d);
    }
}

/// Rounding two quotients down loses less than one against rounding their sum.
proof fn quotient_of_sum(a: int, b: int, d: int)
    requires
        a >= 0,
        b >= 0,
        d > 0,
    ensures
        a / d + b / d <= (a + b) / d <= a / d + b / d + 1,
{
    assert(a / d + b / d <= (a + b) / d <= a / d + b / d + 1) by (nonlinear_arith)
        requires
            a >= 0,
            b >= 0,
            d > 0,
    ;
}

/// Of the resize notifications of one tick only the last counts: two runs of
/// notifications that end alike leave the same record, whatever came before
/// and in whatever order.
pub proof fn last_resize_wins(
    shader: TransitionDefinition,
    first: Seq<WindowResized>,
    second: Seq<WindowResized>,
)
    requires
        first.len() > 0,
        second.len() > 0,
        first.last() == second.last(),
    ensures
        shader.resized(first) == shader.resized(second),
        shader.resized(first).resolution.width == first.last().width,
        shader.resized(first).resolution.height == first.last().height,
{
}

/// Resizing touches the resolution alone, so it does not matter whether the
/// notifications of a tick are taken in before or after its requests, its
/// frame, or the sampled driver.
pub proof fn resize_is_independent_of_the_scheduler(
    shader: TransitionDefinition,
    resizes: Seq<WindowResized>,
    request: NewTransition,
    timing: Timing,
    now: u64,
    sampled: Option<i64>,
)
    ensures
        shader.resized(resizes).accepted(request) == shader.accepted(request).resized(resizes),
        shader.resized(resizes).ticked(timing, now) == shader.ticked(timing, now).resized(resizes),
        shader.resized(resizes).driven(sampled) == shader.driven(sampled).resized(resizes),
{
}

} // verus!

//! The easing curves a transition can follow.

use vstd::prelude::*;

verus! {

/// The shape of the curve that maps progress to the driver. The library only
/// carries the choice; the curve itself is evaluated by the host.
#[derive(Clone, Copy, Debug, PartialEq, Eq, Hash, Structural)]
pub enum EaseFunction {
    Linear,
    QuadraticIn,
    QuadraticOut,
    QuadraticInOut,
    CubicIn,
    CubicOut,
    CubicInOut,
    QuarticIn,
    QuarticOut,
    QuarticInOut,
    QuinticIn,
    QuinticOut,
    QuinticInOut,
    CircularIn,
    CircularOut,
    CircularInOut,
    ExponentialIn,
    ExponentialOut,
    ExponentialInOut,
    BounceIn,
    BounceOut,
    BounceInOut,
}

} // verus!

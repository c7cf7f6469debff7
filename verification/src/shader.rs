//! The record that the fragment stage reads each frame, and the changes the
//! scheduler makes to it.

use vstd::prelude::*;
use crate::events::NewTransition;
use crate::resize::WindowResized;
use crate::state::Timing;

verus! {

/// A colour in linear space, one fixed-point value per channel.
#[derive(Clone, Copy, Debug, PartialEq, Eq, Structural)]
pub struct Rgba {
    pub red: i64,
    pub green: i64,
    pub blue: i64,
    pub alpha: i64,
}

/// The size of the viewport in pixels.
#[derive(Clone, Copy, Debug, PartialEq, Eq, Structural)]
pub struct Resolution {
    pub width: u32,
    pub height: u32,
}

/// What the fragment stage blends with: it wipes from `color1` to `color2`
/// along `movement_angle`, as far as `driver` says.
#[derive(Clone, Copy, Debug, PartialEq, Eq, Structural)]
pub struct TransitionDefinition {
    /// The baseline: what the screen shows where the wipe has not arrived.
    pub color1: Rgba,
    /// The target of the running transition.
    pub color2: Rgba,
    pub resolution: Resolution,
    /// The eased interpolation factor, in fixed point. A curve may overshoot,
    /// so it is not held to the range from 0 to 1.
    pub driver: i64,
    /// The direction of the wipe in degrees, in fixed point.
    pub movement_angle: i64,
}

impl TransitionDefinition {
    /// The record before any transition: every field zero.
    pub open spec fn initial() -> TransitionDefinition {
        TransitionDefinition {
            color1: Rgba { red: 0, green: 0, blue: 0, alpha: 0 },
            color2: Rgba { red: 0, green: 0, blue: 0, alpha: 0 },
            resolution: Resolution { width: 0, height: 0 },
            driver: 0,
            movement_angle: 0,
        }
    }

    /// The record after `request` was taken in. Without a second colour the
    /// transition continues from the current target, which becomes the
    /// baseline; with one, the request sets baseline and target itself.
    pub open spec fn accepted(self, request: NewTransition) -> TransitionDefinition {
        TransitionDefinition {
            color1: match request.color2 {
                None => self.color2,
                Some(_) => request.color,
            },
            color2: match request.color2 {
                None => request.color,
                Some(target) => target,
            },
            driver: 0,
            movement_angle: request.angle,
            ..self
        }
    }

    /// The record after its transition has ended: the target is committed as
    /// the new baseline and the driver is back at zero.
    pub open spec fn completed(self) -> TransitionDefinition {
        TransitionDefinition { color1: self.color2, driver: 0, ..self }
    }

    /// The record after a tick at `now` of a scheduler with this timing, before
    /// the curve is sampled: a transition that has run out is finalized, and
    /// nothing else touches the record.
    pub open spec fn ticked(self, timing: Timing, now: u64) -> TransitionDefinition {
        if timing.expired(now) {
            self.completed()
        } else {
            self
        }
    }

    /// The record after the curve was sampled: a value becomes the driver, a
    /// failed sample leaves the driver as it was.
    pub open spec fn driven(self, sampled: Option<i64>) -> TransitionDefinition {
        match sampled {
            Some(value) => TransitionDefinition { driver: value, ..self },
            None => self,
        }
    }

    /// The record after the resize notifications of one tick: the last one
    /// gives the resolution, and none leaves it alone.
    pub open spec fn resized(self, events: Seq<WindowResized>) -> TransitionDefinition {
        if events.len() == 0 {
            self
        } else {
            TransitionDefinition {
                resolution: Resolution {
                    width: events.last().width,
                    height: events.last().height,
                },
                ..self
            }
        }
    }

    /// Writes the outcome of sampling the easing curve into the driver.
    pub fn drive(&mut self, sampled: Option<i64>)
        ensures
            *final(self) == old(self).driven(sampled),
    {
        if let Some(value) = sampled {
            self.driver = value;
        }
    }
}

impl Default for TransitionDefinition {
    fn default() -> (d: TransitionDefinition)
        ensures
            d == TransitionDefinition::initial(),
    {
        TransitionDefinition {
            color1: Rgba { red: 0, green: 0, blue: 0, alpha: 0 },
            color2: Rgba { red: 0, green: 0, blue: 0, alpha: 0 },
            resolution: Resolution { width: 0, height: 0 },
            driver: 0,
            movement_angle: 0,
        }
    }
}

} // verus!

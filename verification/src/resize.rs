//! Keeping the resolution in step with the window.

use vstd::prelude::*;
use crate::shader::{Resolution, TransitionDefinition};

verus! {

/// A notification that the window now has this size, in pixels.
#[derive(Clone, Copy, Debug, PartialEq, Eq, Structural)]
pub struct WindowResized {
    pub width: u32,
    pub height: u32,
}

/// Takes in the resize notifications of one tick, in the order they arrived.
/// Only the last one counts.
pub fn on_resize(current_definition: &mut TransitionDefinition, events: &Vec<WindowResized>)
    ensures
        *final(current_definition) == old(current_definition).resized(events@),
        events@.len() > 0 ==> final(current_definition).resolution == (Resolution {
            width: events@.last().width,
            height: events@.last().height,
        }),
        events@.len() == 0 ==> *final(current_definition) == *old(current_definition),
{
    let n = events.len();
    if n > 0 {
        let last = &events[n - 1];
        current_definition.resolution = Resolution { width: last.width, height: last.height };
    }
}

} // verus!

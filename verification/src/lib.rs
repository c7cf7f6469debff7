//! Scheduling core of a full-screen colour-wipe transition.
//!
//! A caller asks for a transition towards a colour; every frame the host hands
//! in its clock and the library advances a progress value, rolls colours over
//! when a transition ends, and plans the post-process pass that draws it.
//! All quantities are integers: times count nanoseconds, and every other
//! magnitude counts billionths of its unit (see [`units`]).

pub mod easing;
pub mod events;
pub mod laws;
pub mod render;
pub mod resize;
pub mod shader;
pub mod state;
pub mod units;

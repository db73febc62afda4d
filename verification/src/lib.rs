//! Logic of a weather display: a four-character fourteen-segment display that
//! shows the outside temperature, an animation of the current weather condition
//! and the wind, as reported by a weather service.
use vstd::prelude::*;

pub mod animation;
pub mod display;
pub mod fixed_capacity;
pub mod glyph;
pub mod outside_temperature;
pub mod screen;
pub mod text;
pub mod weather;

verus! {

} // verus!

//! Screen-space effect pass whose strength follows an accumulating gameplay
//! counter: the simulation side that owns the counter and the derived effect
//! parameter, the per-frame copy into the render side, the cache of compiled
//! pipelines, and the per-view pass state machine.
//!
//! Intensities are fixed-point: an intensity is a whole number of thousandths
//! (see [`parameter::UNITS_PER_ONE`]).

pub mod driver;
pub mod executor;
pub mod extract;
pub mod flicker;
pub mod frame;
pub mod layout;
pub mod lifecycle;
pub mod overlay;
pub mod parameter;
pub mod pipeline;
pub mod timer;

//! Core of a Wayland wallpaper client: it fills a background-layer surface
//! with a flat color or an image fitted to cover it, and keeps it sized and
//! scaled as the compositor reconfigures it.
//!
//! - [`protocol`] decides which optional compositor capabilities are in use.
//! - [`window`] is the surface state machine that turns compositor events
//!   into redraws.
//! - [`renderer`] tracks the lifecycle of the GPU drawing surface.
//! - [`geometry`] holds sizes, scales and the image cover fit.
//! - [`image`] holds decoded pixel data and its upload state.
//! - [`color`] parses `RRGGBB` colors.
use vstd::prelude::*;

pub mod color;
pub mod geometry;
pub mod image;
pub mod protocol;
pub mod renderer;
pub mod window;

verus! {

} // verus!

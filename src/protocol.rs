//! Negotiation of the compositor's optional and required capabilities.
use vstd::prelude::*;

verus! {

/// Which protocol capabilities the compositor advertised and bound.
#[derive(PartialEq, Eq, Structural, Copy, Clone, Debug)]
pub struct Offered {
    /// Single-pixel (flat color) buffers; optional.
    pub single_pixel_buffer: bool,
    /// Fractional scale reporting; optional.
    pub fractional_scale: bool,
    /// Explicit viewport scaling; required.
    pub viewporter: bool,
    /// Background-layer placement; required.
    pub layer_shell: bool,
    /// Surface compositing; required.
    pub compositor: bool,
}

/// A required capability that the compositor does not offer.
#[derive(PartialEq, Eq, Structural, Copy, Clone, Debug)]
pub enum MissingCapability {
    Viewporter,
    LayerShell,
    Compositor,
}

impl MissingCapability {
    /// Protocol interface name of the missing capability.
    pub fn name(&self) -> (r: &'static str) {
        match self {
            MissingCapability::Viewporter => "wp_viewporter",
            MissingCapability::LayerShell => "wlr_layer_shell",
            MissingCapability::Compositor => "wl_compositor",
        }
    }
}

/// The optional capabilities available for the whole life of the process.
#[derive(PartialEq, Eq, Structural, Copy, Clone, Debug)]
pub struct Capabilities {
    pub single_pixel_buffer: bool,
    pub fractional_scale: bool,
}

/// Outcome of negotiating `offered`: the first missing required capability,
/// checked in binding order, or the optional capabilities that bound.
pub open spec fn negotiation(offered: Offered) -> Result<Capabilities, MissingCapability> {
    if !offered.viewporter {
        Err(MissingCapability::Viewporter)
    } else if !offered.layer_shell {
        Err(MissingCapability::LayerShell)
    } else if !offered.compositor {
        Err(MissingCapability::Compositor)
    } else {
        Ok(
            Capabilities {
                single_pixel_buffer: offered.single_pixel_buffer,
                fractional_scale: offered.fractional_scale,
            },
        )
    }
}

impl Capabilities {
    /// Decide the process's capabilities from what the compositor offered.
    pub fn negotiate(offered: Offered) -> (r: Result<Capabilities, MissingCapability>)
        ensures
            r == negotiation(offered),
    {
        if !offered.viewporter {
            Err(MissingCapability::Viewporter)
        } else if !offered.layer_shell {
            Err(MissingCapability::LayerShell)
        } else if !offered.compositor {
            Err(MissingCapability::Compositor)
        } else {
            Ok(
                Capabilities {
                    single_pixel_buffer: offered.single_pixel_buffer,
                    fractional_scale: offered.fractional_scale,
                },
            )
        }
    }
}

} // verus!

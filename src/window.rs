//! The wallpaper surface's state machine: size, scale and render path.
//!
//! Every protocol event goes through [`WindowState::handle`], which updates the
//! state and returns the [`Reaction`] that the caller carries out against the
//! compositor and the GPU.
use vstd::prelude::*;

use crate::geometry::{cover_fit, fit_image, scaled_size, ImageFit, Scale, Size};
use crate::protocol::Capabilities;

verus! {

/// How every frame is rendered, fixed when the window is created.
#[derive(PartialEq, Eq, Structural, Copy, Clone, Debug)]
pub enum RenderPath {
    /// Attach a pre-created single-pixel buffer; no GPU work at all.
    FlatColor,
    /// Clear to the background color on the GPU and draw the image, if any.
    Gpu,
}

/// Which scale notification is authoritative, fixed when the window is
/// created.
#[derive(PartialEq, Eq, Structural, Copy, Clone, Debug)]
pub enum ScaleMode {
    /// Integer scale factors from the surface.
    Integer,
    /// Fractional scales; integer factors are ignored.
    Fractional,
}

pub open spec fn path_for(caps: Capabilities, has_image: bool) -> RenderPath {
    if caps.single_pixel_buffer && !has_image {
        RenderPath::FlatColor
    } else {
        RenderPath::Gpu
    }
}

pub open spec fn scale_mode_for(caps: Capabilities) -> ScaleMode {
    if caps.fractional_scale {
        ScaleMode::Fractional
    } else {
        ScaleMode::Integer
    }
}

/// An event from the compositor about the wallpaper surface.
#[derive(PartialEq, Eq, Structural, Copy, Clone, Debug)]
pub enum SurfaceEvent {
    /// The compositor assigned a logical size.
    Configure(Size<u32>),
    /// Integer scale factor of the surface.
    ScaleFactorChanged(i32),
    /// Fractional scale, in 120ths.
    FractionalScaleChanged(u32),
    /// A frame callback fired.
    Frame,
    /// The compositor closed the surface.
    Closed,
}

/// GPU work of one frame.
#[derive(PartialEq, Eq, Structural, Copy, Clone, Debug)]
pub struct GpuFrame {
    /// Pixel size of the drawing surface.
    pub physical: Size<u32>,
    /// Where the image goes, when there is one.
    pub image: Option<ImageFit>,
}

/// How one frame fills the surface.
#[derive(PartialEq, Eq, Structural, Copy, Clone, Debug)]
pub enum RenderStep {
    /// Attach the single-pixel buffer of the background color.
    AttachFlatColor,
    /// Clear to the background color and draw the image on the GPU.
    Gpu(GpuFrame),
}

/// One redraw: set the viewport destination, damage the surface, render,
/// and commit.
#[derive(PartialEq, Eq, Structural, Copy, Clone, Debug)]
pub struct FrameRequest {
    /// Logical destination size for viewport scaling, resent every frame.
    pub destination: Size<u32>,
    /// Damaged rectangle from the origin, in logical pixels.
    pub damage: Size<u32>,
    pub render: RenderStep,
}

/// What the caller does in answer to one event, in this order.
#[derive(PartialEq, Eq, Structural, Copy, Clone, Debug)]
pub struct Reaction {
    /// Mark the surface opaque from the origin over this size.
    pub opaque_region: Option<Size<u32>>,
    /// Draw this frame.
    pub redraw: Option<FrameRequest>,
    /// Stop the event loop.
    pub stop: bool,
}

/// A reaction that does nothing.
pub open spec fn quiet() -> Reaction {
    Reaction { opaque_region: None, redraw: None, stop: false }
}

/// State of the wallpaper surface.
#[derive(PartialEq, Eq, Structural, Copy, Clone, Debug)]
pub struct WindowState {
    /// Logical size; zero until the compositor configures the surface.
    pub size: Size<u32>,
    pub scale: Scale,
    pub path: RenderPath,
    pub scale_mode: ScaleMode,
    /// Natural size of the wallpaper image, when there is one.
    pub image_size: Option<Size<u32>>,
    pub terminated: bool,
}

/// A window before its first configuration: no size, unit scale, and the
/// render path and scale mode that `caps` and the presence of an image decide.
pub open spec fn initial_window(caps: Capabilities, image_size: Option<Size<u32>>) -> WindowState {
    WindowState {
        size: Size { width: 0, height: 0 },
        scale: Scale { per120: 120 },
        path: path_for(caps, image_size is Some),
        scale_mode: scale_mode_for(caps),
        image_size,
        terminated: false,
    }
}

/// The frame that draws `w` as it stands.
pub open spec fn frame_for(w: WindowState) -> FrameRequest {
    FrameRequest {
        destination: w.size,
        damage: w.size,
        render: match w.path {
            RenderPath::FlatColor => RenderStep::AttachFlatColor,
            RenderPath::Gpu => {
                let physical = scaled_size(w.size, w.scale);
                RenderStep::Gpu(
                    GpuFrame {
                        physical,
                        image: match w.image_size {
                            None => None,
                            Some(image) => Some(cover_fit(physical, image)),
                        },
                    },
                )
            },
        },
    }
}

/// A new scale: ignored when unchanged, and redrawn only once a size is known.
pub open spec fn scale_step(w: WindowState, scale: Scale) -> (WindowState, Reaction) {
    if w.scale == scale {
        (w, quiet())
    } else {
        let next = WindowState { scale, ..w };
        let redraw = if w.size != (Size::<u32> { width: 0, height: 0 }) {
            Some(frame_for(next))
        } else {
            None
        };
        (next, Reaction { opaque_region: None, redraw, stop: false })
    }
}

/// The state after event `e`, and the reaction to it.
pub open spec fn step(w: WindowState, e: SurfaceEvent) -> (WindowState, Reaction) {
    match e {
        SurfaceEvent::Configure(size) => if size == w.size {
            (w, quiet())
        } else {
            let next = WindowState { size, ..w };
            (
                next,
                Reaction { opaque_region: Some(size), redraw: Some(frame_for(next)), stop: false },
            )
        },
        SurfaceEvent::ScaleFactorChanged(factor) => if w.scale_mode == ScaleMode::Fractional {
            (w, quiet())
        } else {
            scale_step(w, Scale { per120: crate::geometry::integer_scale_per120(factor as int) as u64 })
        },
        SurfaceEvent::FractionalScaleChanged(per120) => if w.scale_mode == ScaleMode::Integer {
            (w, quiet())
        } else {
            scale_step(w, Scale { per120: per120 as u64 })
        },
        SurfaceEvent::Frame => (
            w,
            Reaction { opaque_region: None, redraw: Some(frame_for(w)), stop: false },
        ),
        SurfaceEvent::Closed => (
            WindowState { terminated: true, ..w },
            Reaction { opaque_region: None, redraw: None, stop: true },
        ),
    }
}

/// Whether reaction `r` holds any GPU work.
pub open spec fn draws_on_gpu(r: Reaction) -> bool {
    r.redraw matches Some(frame) && frame.render is Gpu
}

/// The state after each event of `events` in turn.
pub open spec fn state_after(w: WindowState, events: Seq<SurfaceEvent>) -> WindowState
    decreases events.len(),
{
    if events.len() == 0 {
        w
    } else {
        state_after(step(w, events[0]).0, events.drop_first())
    }
}

/// The reactions to each event of `events` in turn, starting from `w`.
pub open spec fn reactions(w: WindowState, events: Seq<SurfaceEvent>) -> Seq<Reaction>
    decreases events.len(),
{
    if events.len() == 0 {
        Seq::empty()
    } else {
        let (next, r) = step(w, events[0]);
        seq![r].add(reactions(next, events.drop_first()))
    }
}

/// Configuring the same size twice redraws once at most: the first time only
/// if the size changed, the second time never, and the second changes nothing.
pub proof fn lemma_configure_idempotent(w: WindowState, size: Size<u32>)
    ensures
        ({
            let (once, first) = step(w, SurfaceEvent::Configure(size));
            let (twice, second) = step(once, SurfaceEvent::Configure(size));
            &&& first.redraw is Some <==> size != w.size
            &&& twice == once
            &&& second == quiet()
        }),
{
}

/// The same integer scale factor twice redraws once at most: the first time
/// only if the scale changed, a size is known and integer scales are in use;
/// the second time never, and the second changes nothing.
pub proof fn lemma_scale_factor_idempotent(w: WindowState, factor: i32)
    ensures
        ({
            let (once, first) = step(w, SurfaceEvent::ScaleFactorChanged(factor));
            let (twice, second) = step(once, SurfaceEvent::ScaleFactorChanged(factor));
            &&& first.redraw is Some <==> (w.scale_mode == ScaleMode::Integer && w.scale.per120
                != crate::geometry::integer_scale_per120(factor as int) && w.size != (Size::<u32> {
                width: 0,
                height: 0,
            }))
            &&& twice == once
            &&& second == quiet()
        }),
{
}

/// The same fractional scale twice redraws once at most, and the second
/// changes nothing.
pub proof fn lemma_fractional_scale_idempotent(w: WindowState, per120: u32)
    ensures
        ({
            let (once, _) = step(w, SurfaceEvent::FractionalScaleChanged(per120));
            step(once, SurfaceEvent::FractionalScaleChanged(per120)) == (once, quiet())
        }),
{
}

/// No event changes the render path or the scale mode chosen at creation.
pub proof fn lemma_modes_fixed(w: WindowState, events: Seq<SurfaceEvent>)
    ensures
        state_after(w, events).path == w.path,
        state_after(w, events).scale_mode == w.scale_mode,
        state_after(w, events).image_size == w.image_size,
    decreases events.len(),
{
    if events.len() > 0 {
        lemma_modes_fixed(step(w, events[0]).0, events.drop_first());
    }
}

/// Once fractional scaling is bound, an integer scale factor received after
/// any history of events is ignored: no state change and no redraw.
pub proof fn lemma_integer_scale_ignored(
    caps: Capabilities,
    image_size: Option<Size<u32>>,
    history: Seq<SurfaceEvent>,
    factor: i32,
)
    requires
        caps.fractional_scale,
    ensures
        ({
            let w = state_after(
                initial_window(caps, image_size),
                history,
            );
            step(w, SurfaceEvent::ScaleFactorChanged(factor)) == (w, quiet())
        }),
{
    lemma_modes_fixed(initial_window(caps, image_size), history);
}

/// On the flat-color path no reaction to any sequence of events holds GPU
/// work: every redraw attaches the single-pixel buffer.
pub proof fn lemma_flat_color_never_draws_on_gpu(w: WindowState, events: Seq<SurfaceEvent>)
    requires
        w.path == RenderPath::FlatColor,
    ensures
        forall|i: int|
            0 <= i < events.len() ==> !draws_on_gpu(#[trigger] reactions(w, events)[i]),
        reactions(w, events).len() == events.len(),
    decreases events.len(),
{
    if events.len() > 0 {
        let (next, r) = step(w, events[0]);
        let rest = events.drop_first();
        lemma_flat_color_never_draws_on_gpu(next, rest);
        let all = reactions(w, events);
        assert(all == seq![r].add(reactions(next, rest)));
        assert forall|i: int|
            0 <= i < events.len() implies !draws_on_gpu(#[trigger] all[i]) by {
            if i > 0 {
                assert(all[i] == reactions(next, rest)[i - 1]);
            }
        }
    }
}

/// A window created with single-pixel buffers available and no image never
/// does GPU work, whatever events follow.
pub proof fn lemma_flat_color_window_never_draws_on_gpu(
    caps: Capabilities,
    events: Seq<SurfaceEvent>,
)
    requires
        caps.single_pixel_buffer,
    ensures
        initial_window(caps, None).path == RenderPath::FlatColor,
        forall|i: int|
            0 <= i < events.len() ==> !draws_on_gpu(
                #[trigger] reactions(initial_window(caps, None), events)[i],
            ),
{
    lemma_flat_color_never_draws_on_gpu(initial_window(caps, None), events);
}

impl WindowState {
    pub open spec fn well_formed(self) -> bool {
        self.image_size matches Some(image) ==> image.width > 0 && image.height > 0
    }

    /// A window that has not been configured yet, rendering along the path
    /// that `caps` and the presence of an image decide.
    pub fn new(caps: Capabilities, image_size: Option<Size<u32>>) -> (r: WindowState)
        requires
            image_size matches Some(image) ==> image.width > 0 && image.height > 0,
        ensures
            r.well_formed(),
            r == initial_window(caps, image_size),
    {
        let path = if caps.single_pixel_buffer && image_size.is_none() {
            RenderPath::FlatColor
        } else {
            RenderPath::Gpu
        };
        let scale_mode = if caps.fractional_scale {
            ScaleMode::Fractional
        } else {
            ScaleMode::Integer
        };
        WindowState {
            size: Size { width: 0, height: 0 },
            scale: Scale::unit(),
            path,
            scale_mode,
            image_size,
            terminated: false,
        }
    }

    /// The frame that redraws the window as it stands.
    pub fn draw(&self) -> (r: FrameRequest)
        requires
            self.well_formed(),
        ensures
            r == frame_for(*self),
    {
        let render = match self.path {
            RenderPath::FlatColor => RenderStep::AttachFlatColor,
            RenderPath::Gpu => {
                let physical = self.size.scaled(self.scale);
                let image = match self.image_size {
                    None => None,
                    Some(image) => Some(fit_image(physical, image)),
                };
                RenderStep::Gpu(GpuFrame { physical, image })
            },
        };
        FrameRequest { destination: self.size, damage: self.size, render }
    }

    /// Update the logical size; an unchanged size does nothing.
    pub fn set_size(&mut self, size: Size<u32>) -> (r: Reaction)
        requires
            old(self).well_formed(),
        ensures
            (*final(self), r) == step(*old(self), SurfaceEvent::Configure(size)),
    {
        if self.size == size {
            return Reaction { opaque_region: None, redraw: None, stop: false };
        }
        self.size = size;
        let frame = self.draw();
        Reaction { opaque_region: Some(size), redraw: Some(frame), stop: false }
    }

    /// Update the scale; an unchanged scale does nothing.
    pub fn set_scale_factor(&mut self, scale: Scale) -> (r: Reaction)
        requires
            old(self).well_formed(),
        ensures
            (*final(self), r) == scale_step(*old(self), scale),
    {
        if self.scale == scale {
            return Reaction { opaque_region: None, redraw: None, stop: false };
        }
        self.scale = scale;
        let redraw = if self.size.width != 0 || self.size.height != 0 {
            Some(self.draw())
        } else {
            None
        };
        Reaction { opaque_region: None, redraw, stop: false }
    }

    /// Apply one compositor event.
    pub fn handle(&mut self, event: SurfaceEvent) -> (r: Reaction)
        requires
            old(self).well_formed(),
        ensures
            (*final(self), r) == step(*old(self), event),
            final(self).well_formed(),
    {
        match event {
            SurfaceEvent::Configure(size) => self.set_size(size),
            SurfaceEvent::ScaleFactorChanged(factor) => {
                if self.scale_mode == ScaleMode::Fractional {
                    Reaction { opaque_region: None, redraw: None, stop: false }
                } else {
                    self.set_scale_factor(Scale::from_integer(factor))
                }
            },
            SurfaceEvent::FractionalScaleChanged(per120) => {
                if self.scale_mode == ScaleMode::Integer {
                    Reaction { opaque_region: None, redraw: None, stop: false }
                } else {
                    self.set_scale_factor(Scale::from_fractional(per120))
                }
            },
            SurfaceEvent::Frame => Reaction {
                opaque_region: None,
                redraw: Some(self.draw()),
                stop: false,
            },
            SurfaceEvent::Closed => {
                self.terminated = true;
                Reaction { opaque_region: None, redraw: None, stop: true }
            },
        }
    }
}

} // verus!

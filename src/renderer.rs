//! Lifecycle of the GPU drawing surface bound to the wallpaper surface.
//!
//! The drawing surface and its context can only be created once real pixel
//! dimensions are known; after that they are resized in place and never
//! recreated.
use vstd::prelude::*;

use crate::geometry::Size;

verus! {

/// What the GPU drawing surface knows of its size.
#[derive(PartialEq, Eq, Structural, Copy, Clone, Debug)]
pub enum RenderTarget {
    /// No drawing surface exists yet.
    Unsized,
    /// A drawing surface exists with this non-empty pixel size.
    Sized(Size<u32>),
}

/// What must happen to the drawing surface before a frame of some size.
#[derive(PartialEq, Eq, Structural, Copy, Clone, Debug)]
pub enum TargetAction {
    /// Create the drawing surface and its context at this size.
    Create(Size<u32>),
    /// Resize the existing drawing surface to this size.
    Resize(Size<u32>),
    /// The drawing surface already has the requested size.
    Keep,
    /// The requested size is empty: nothing can be drawn.
    Skip,
}

/// The target after a frame of `size` is requested, and the action it takes.
pub open spec fn target_step(target: RenderTarget, size: Size<u32>) -> (RenderTarget, TargetAction) {
    if size.width == 0 || size.height == 0 {
        (target, TargetAction::Skip)
    } else {
        match target {
            RenderTarget::Unsized => (RenderTarget::Sized(size), TargetAction::Create(size)),
            RenderTarget::Sized(current) => if current == size {
                (target, TargetAction::Keep)
            } else {
                (RenderTarget::Sized(size), TargetAction::Resize(size))
            },
        }
    }
}

/// The target after frames of each size in `sizes`, in order.
pub open spec fn target_after(target: RenderTarget, sizes: Seq<Size<u32>>) -> RenderTarget
    decreases sizes.len(),
{
    if sizes.len() == 0 {
        target
    } else {
        target_after(target_step(target, sizes[0]).0, sizes.drop_first())
    }
}

impl RenderTarget {
    pub open spec fn well_formed(self) -> bool {
        self matches RenderTarget::Sized(size) ==> size.width > 0 && size.height > 0
    }

    /// A target with no drawing surface yet.
    pub fn new() -> (r: RenderTarget)
        ensures
            r == RenderTarget::Unsized,
    {
        RenderTarget::Unsized
    }

    /// Bring the target to `size` for the next frame, and say what must be
    /// done to the drawing surface for that.
    pub fn prepare(&mut self, size: Size<u32>) -> (r: TargetAction)
        ensures
            (*final(self), r) == target_step(*old(self), size),
    {
        if size.width == 0 || size.height == 0 {
            return TargetAction::Skip;
        }
        match *self {
            RenderTarget::Unsized => {
                *self = RenderTarget::Sized(size);
                TargetAction::Create(size)
            },
            RenderTarget::Sized(current) => {
                if current == size {
                    TargetAction::Keep
                } else {
                    *self = RenderTarget::Sized(size);
                    TargetAction::Resize(size)
                }
            },
        }
    }

    /// The size of the drawing surface, once it exists.
    pub fn size(&self) -> (r: Option<Size<u32>>)
        ensures
            r == (match *self {
                RenderTarget::Unsized => None,
                RenderTarget::Sized(size) => Some(size),
            }),
    {
        match *self {
            RenderTarget::Unsized => None,
            RenderTarget::Sized(size) => Some(size),
        }
    }
}

/// Preparing a frame keeps the target well formed.
pub proof fn lemma_step_well_formed(target: RenderTarget, size: Size<u32>)
    requires
        target.well_formed(),
    ensures
        target_step(target, size).0.well_formed(),
{
}

/// Once a drawing surface exists, no frame size recreates it: each frame
/// resizes it, keeps it, or skips an empty size, and the surface stays.
pub proof fn lemma_sized_never_recreated(target: RenderTarget, size: Size<u32>)
    requires
        target is Sized,
    ensures
        !(target_step(target, size).1 is Create),
        target_step(target, size).0 is Sized,
{
}

/// Preparing the same size twice changes nothing the second time.
pub proof fn lemma_prepare_idempotent(target: RenderTarget, size: Size<u32>)
    ensures
        ({
            let (once, _) = target_step(target, size);
            target_step(once, size) == (once, TargetAction::Skip) || target_step(once, size) == (
            once, TargetAction::Keep)
        }),
{
}

/// Resizing a sized target through any non-empty sizes, such as a shrink
/// followed by a grow, leaves it at the last size applied, and no step of the
/// way creates a new drawing surface.
pub proof fn lemma_resize_round_trip(target: RenderTarget, sizes: Seq<Size<u32>>)
    requires
        target is Sized,
        sizes.len() > 0,
        forall|i: int| 0 <= i < sizes.len() ==> sizes[i].width > 0 && sizes[i].height > 0,
    ensures
        target_after(target, sizes) == RenderTarget::Sized(sizes.last()),
        forall|i: int|
            0 <= i < sizes.len() ==> !(#[trigger] target_step(
                target_after(target, sizes.take(i)),
                sizes[i],
            ).1 is Create),
    decreases sizes.len(),
{
    let next = target_step(target, sizes[0]).0;
    let rest = sizes.drop_first();
    assert(target_after(target, sizes) == target_after(next, rest));
    if rest.len() == 0 {
        assert(target_after(next, rest) == next);
    } else {
        assert forall|i: int| 0 <= i < rest.len() implies rest[i].width > 0 && rest[i].height > 0 by {
            assert(rest[i] == sizes[i + 1]);
        }
        lemma_resize_round_trip(next, rest);
        assert(rest.last() == sizes.last());
    }
    assert forall|i: int| 0 <= i < sizes.len() implies !(#[trigger] target_step(
        target_after(target, sizes.take(i)),
        sizes[i],
    ).1 is Create) by {
        lemma_after_sized(target, sizes.take(i));
    }
}

/// A sized target stays sized whatever frames are prepared.
pub proof fn lemma_after_sized(target: RenderTarget, sizes: Seq<Size<u32>>)
    requires
        target is Sized,
    ensures
        target_after(target, sizes) is Sized,
    decreases sizes.len(),
{
    if sizes.len() > 0 {
        lemma_after_sized(target_step(target, sizes[0]).0, sizes.drop_first());
    }
}

} // verus!

use tabula::geometry::Size;
use tabula::renderer::{RenderTarget, TargetAction};

#[test]
fn first_size_creates_the_surface() {
    let mut target = RenderTarget::new();
    assert_eq!(target.size(), None);
    assert_eq!(target.prepare(Size::new(0, 0)), TargetAction::Skip);
    assert_eq!(target, RenderTarget::Unsized);
    assert_eq!(target.prepare(Size::new(1920, 1080)), TargetAction::Create(Size::new(1920, 1080)));
    assert_eq!(target.size(), Some(Size::new(1920, 1080)));
}

#[test]
fn resize_shrink_grow_round_trip() {
    let mut target = RenderTarget::new();
    target.prepare(Size::new(1920, 1080));
    let sizes = [Size::new(2560, 1440), Size::new(640, 480), Size::new(3840, 2160)];
    for size in sizes {
        assert_eq!(target.prepare(size), TargetAction::Resize(size));
    }
    assert_eq!(target.size(), Some(Size::new(3840, 2160)));
}

#[test]
fn same_size_keeps_the_surface() {
    let mut target = RenderTarget::new();
    target.prepare(Size::new(100, 100));
    assert_eq!(target.prepare(Size::new(100, 100)), TargetAction::Keep);
    assert_eq!(target.prepare(Size::new(100, 0)), TargetAction::Skip);
    assert_eq!(target.size(), Some(Size::new(100, 100)));
}

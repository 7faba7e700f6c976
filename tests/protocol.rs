use tabula::protocol::{Capabilities, MissingCapability, Offered};

fn offered() -> Offered {
    Offered {
        single_pixel_buffer: true,
        fractional_scale: false,
        viewporter: true,
        layer_shell: true,
        compositor: true,
    }
}

#[test]
fn optional_capabilities_are_recorded() {
    assert_eq!(
        Capabilities::negotiate(offered()),
        Ok(Capabilities { single_pixel_buffer: true, fractional_scale: false })
    );
    let none = Offered { single_pixel_buffer: false, ..offered() };
    assert_eq!(
        Capabilities::negotiate(none),
        Ok(Capabilities { single_pixel_buffer: false, fractional_scale: false })
    );
}

#[test]
fn missing_required_capability_is_named() {
    let all_missing = Offered { viewporter: false, layer_shell: false, compositor: false, ..offered() };
    assert_eq!(Capabilities::negotiate(all_missing), Err(MissingCapability::Viewporter));
    let no_layer = Offered { layer_shell: false, compositor: false, ..offered() };
    assert_eq!(Capabilities::negotiate(no_layer), Err(MissingCapability::LayerShell));
    let no_compositor = Offered { compositor: false, ..offered() };
    assert_eq!(Capabilities::negotiate(no_compositor), Err(MissingCapability::Compositor));
    assert_eq!(MissingCapability::Viewporter.name(), "wp_viewporter");
    assert_eq!(MissingCapability::LayerShell.name(), "wlr_layer_shell");
    assert_eq!(MissingCapability::Compositor.name(), "wl_compositor");
}

//! The four surface-kind containers: payload normalization and terminal
//! notifications.

use waybridge::containers::IcedLayerSurface;
use waybridge::containers::IcedPopup;
use waybridge::containers::IcedSubsurface;
use waybridge::containers::IcedWindow;
use waybridge::containers::LayerConfigureData;
use waybridge::containers::PopupConfigureData;
use waybridge::containers::WindowConfigureData;
use waybridge::render::IcedAppData;

struct DemoApp;

impl IcedAppData for DemoApp {
    type Message = u32;

    fn update(&mut self, _message: u32) {}
}

#[test]
fn an_unspecified_window_dimension_defaults() {
    let mut w = IcedWindow::new(1, DemoApp, 10, 10);
    w.window_configure(&WindowConfigureData {
        width: None,
        height: Some(300),
    });
    assert_eq!((w.surface.width, w.surface.height), (256, 300));
    w.window_configure(&WindowConfigureData {
        width: None,
        height: None,
    });
    assert_eq!((w.surface.width, w.surface.height), (256, 256));
}

#[test]
fn a_degenerate_layer_configure_is_clamped() {
    let mut l = IcedLayerSurface::new(2, DemoApp, 100, 100);
    l.layer_configure(&LayerConfigureData {
        width: 0,
        height: 0,
    });
    assert_eq!((l.surface.width, l.surface.height), (1, 1));
}

#[test]
fn a_negative_popup_dimension_keeps_the_previous_size() {
    let mut p = IcedPopup::new(3, DemoApp, 100, 80);
    p.popup_configure(&PopupConfigureData {
        width: -5,
        height: 200,
    });
    assert_eq!((p.surface.width, p.surface.height), (100, 200));
}

#[test]
fn a_subsurface_adopts_the_parent_driven_size() {
    let mut s = IcedSubsurface::new(4, DemoApp, 10, 10);
    s.subsurface_configure(320, 240);
    assert_eq!((s.surface.width, s.surface.height), (320, 240));
}

#[test]
fn terminal_notifications_mark_removal_eligibility() {
    let mut w = IcedWindow::new(5, DemoApp, 10, 10);
    assert!(!w.removal_eligible);
    w.request_close();
    assert!(w.removal_eligible);

    let mut l = IcedLayerSurface::new(6, DemoApp, 10, 10);
    l.layer_closed();
    assert!(l.removal_eligible);

    let mut p = IcedPopup::new(7, DemoApp, 10, 10);
    p.popup_done();
    assert!(p.removal_eligible);
}

//! The dispatch registry: identity-keyed routing, no-op misses,
//! kind-aware configures and removal.

use waybridge::containers::IcedLayerSurface;
use waybridge::containers::IcedPopup;
use waybridge::containers::IcedSubsurface;
use waybridge::containers::IcedWindow;
use waybridge::containers::LayerConfigureData;
use waybridge::containers::PopupConfigureData;
use waybridge::containers::WindowConfigureData;
use waybridge::input::KeyEvent;
use waybridge::input::PointerEvent;
use waybridge::input::PointerEventKind;
use waybridge::input::UiEvent;
use waybridge::registry::ContainerEntry;
use waybridge::registry::DispatchRegistry;
use waybridge::render::IcedAppData;
use waybridge::render::MouseInteraction;

struct DemoApp;

impl IcedAppData for DemoApp {
    type Message = u32;

    fn update(&mut self, _message: u32) {}
}

fn window(identity: u64) -> ContainerEntry<DemoApp> {
    ContainerEntry::Window(IcedWindow::new(identity, DemoApp, 100, 100))
}

fn layer(identity: u64) -> ContainerEntry<DemoApp> {
    ContainerEntry::LayerSurface(IcedLayerSurface::new(identity, DemoApp, 100, 100))
}

#[test]
fn registration_refuses_duplicate_identities() {
    let mut reg = DispatchRegistry::new();
    assert!(reg.register(window(1)));
    assert!(reg.register(layer(2)));
    assert!(!reg.register(window(1)));
    assert_eq!(reg.len(), 2);
    assert!(reg.contains(1));
    assert!(!reg.contains(9));
}

#[test]
fn events_for_unknown_identities_are_noops() {
    let mut reg: DispatchRegistry<DemoApp> = DispatchRegistry::new();
    let ev = KeyEvent {
        keysym: xkeysym::key::a,
        raw_code: 38,
        utf8: None,
    };
    assert!(!reg.dispatch_press_key(9, &ev));
    assert!(!reg.dispatch_closed(9));
    assert!(!reg.dispatch_scale_factor_changed(9, 2));
    assert!(reg.begin_frame(9).is_none());
    assert_eq!(reg.len(), 0);
}

#[test]
fn input_reaches_only_the_matching_container() {
    let mut reg = DispatchRegistry::new();
    reg.register(window(1));
    reg.register(window(2));
    let motion = PointerEvent {
        x: 1,
        y: 2,
        kind: PointerEventKind::Motion,
    };
    assert!(reg.dispatch_pointer_frame(2, &motion));
    let quiet = reg.begin_frame(1).unwrap();
    assert_eq!(quiet, vec![UiEvent::RedrawRequested]);
    let busy = reg.begin_frame(2).unwrap();
    assert_eq!(busy.len(), 2);
    assert_eq!(reg.should_request_frame(1), Some(false));
    assert_eq!(reg.should_request_frame(2), Some(true));
}

#[test]
fn configures_are_kind_aware() {
    let mut reg = DispatchRegistry::new();
    reg.register(window(1));
    reg.register(layer(2));
    // A window configure finds the layer container but leaves it alone.
    assert!(reg.dispatch_window_configure(
        2,
        &WindowConfigureData {
            width: Some(640),
            height: Some(480),
        }
    ));
    // A layer configure of (0, 0) is clamped on the layer container.
    assert!(reg.dispatch_layer_configure(
        2,
        &LayerConfigureData {
            width: 0,
            height: 0,
        }
    ));
    match &reg.entries[1] {
        ContainerEntry::LayerSurface(l) => {
            assert_eq!((l.surface.width, l.surface.height), (1, 1));
        }
        other => panic!("expected the layer container, got {:?}", other.kind()),
    }
    // The window container is untouched by either.
    match &reg.entries[0] {
        ContainerEntry::Window(w) => {
            assert_eq!((w.surface.width, w.surface.height), (100, 100));
        }
        other => panic!("expected the window container, got {:?}", other.kind()),
    }
}

#[test]
fn terminal_notifications_and_removal_work_by_identity() {
    let mut reg = DispatchRegistry::new();
    reg.register(window(1));
    reg.register(layer(2));
    assert_eq!(reg.is_removal_eligible(2), Some(false));
    assert!(reg.dispatch_closed(2));
    assert_eq!(reg.is_removal_eligible(2), Some(true));
    assert!(reg.remove(2));
    assert!(!reg.remove(2));
    assert_eq!(reg.len(), 1);
    assert!(reg.contains(1));
}

#[test]
fn update_outcomes_flow_through_the_registry() {
    let mut reg = DispatchRegistry::new();
    reg.register(window(1));
    let d = reg
        .apply_update_outcome(1, vec![5], MouseInteraction::Pointer)
        .unwrap();
    assert!(d.rebuild);
    assert!(d.cursor_change.is_some());
    let d = reg
        .apply_update_outcome(1, Vec::new(), MouseInteraction::Pointer)
        .unwrap();
    assert!(!d.rebuild);
    assert_eq!(d.cursor_change, None);
    assert!(reg.apply_update_outcome(9, Vec::new(), MouseInteraction::Idle).is_none());
}

#[test]
fn scale_changes_route_and_report() {
    let mut reg = DispatchRegistry::new();
    reg.register(window(1));
    assert!(reg.dispatch_scale_factor_changed(1, 2));
    assert!(!reg.dispatch_scale_factor_changed(1, 2));
}

#[test]
fn popup_and_subsurface_configures_route_by_kind() {
    let mut reg = DispatchRegistry::new();
    reg.register(ContainerEntry::Popup(IcedPopup::new(3, DemoApp, 100, 80)));
    reg.register(ContainerEntry::Subsurface(IcedSubsurface::new(4, DemoApp, 10, 10)));
    assert!(reg.dispatch_popup_configure(
        3,
        &PopupConfigureData {
            width: -1,
            height: 200,
        }
    ));
    match &reg.entries[0] {
        ContainerEntry::Popup(p) => {
            assert_eq!((p.surface.width, p.surface.height), (100, 200));
        }
        other => panic!("expected the popup container, got {:?}", other.kind()),
    }
    assert!(reg.dispatch_subsurface_configure(4, 320, 240));
    match &reg.entries[1] {
        ContainerEntry::Subsurface(s) => {
            assert_eq!((s.surface.width, s.surface.height), (320, 240));
        }
        other => panic!("expected the subsurface container, got {:?}", other.kind()),
    }
    assert!(reg.dispatch_done(3));
    assert_eq!(reg.is_removal_eligible(3), Some(true));
    assert_eq!(reg.is_removal_eligible(4), Some(false));
}

#[test]
fn window_close_requests_and_key_releases_route() {
    let mut reg = DispatchRegistry::new();
    reg.register(window(1));
    let ev = KeyEvent {
        keysym: xkeysym::key::a,
        raw_code: 38,
        utf8: Some("a".to_string()),
    };
    assert!(reg.dispatch_press_key(1, &ev));
    let released = KeyEvent {
        keysym: xkeysym::key::a,
        raw_code: 38,
        utf8: None,
    };
    assert!(reg.dispatch_release_key(1, &released));
    assert!(reg.dispatch_repeat_key(1, &released));
    assert!(reg.dispatch_keyboard_enter(1));
    assert!(reg.dispatch_keyboard_leave(1));
    let events = reg.begin_frame(1).unwrap();
    // press, release, repeat, then the redraw marker
    assert_eq!(events.len(), 4);
    assert!(reg.dispatch_request_close(1));
    assert_eq!(reg.is_removal_eligible(1), Some(true));
}

//! The render surface state: clamping, presentation configuration,
//! scale handling, frame pacing and cursor-shape feedback.

use waybridge::input::MouseEvent;
use waybridge::input::PointerEvent;
use waybridge::input::PointerEventKind;
use waybridge::input::UiEvent;
use waybridge::render::CursorShape;
use waybridge::render::IcedAppData;
use waybridge::render::IcedSurfaceState;
use waybridge::render::MouseInteraction;
use waybridge::render::SurfaceConfig;
use waybridge::render::iced_to_cursor_shape;

/// A minimal application: its state is the list of messages applied.
struct DemoApp {
    applied: Vec<u32>,
}

impl IcedAppData for DemoApp {
    type Message = u32;

    fn update(&mut self, message: u32) {
        self.applied.push(message);
    }
}

fn surface(width: u32, height: u32) -> IcedSurfaceState<DemoApp> {
    IcedSurfaceState::new(DemoApp { applied: Vec::new() }, width, height)
}

#[test]
fn a_fresh_surface_has_sane_defaults() {
    let s = surface(0, 300);
    assert_eq!(s.width, 1);
    assert_eq!(s.height, 300);
    assert_eq!(s.scale_factor, 1);
    assert_eq!(s.surface_config, None);
    assert_eq!(s.mouse_interaction, MouseInteraction::Idle);
}

#[test]
fn configure_clamps_zero_dimensions() {
    let mut s = surface(100, 100);
    s.configure(0, 0);
    assert_eq!((s.width, s.height), (1, 1));
    assert_eq!(s.surface_config, Some(SurfaceConfig { width: 1, height: 1 }));
    s.configure(0, 300);
    assert_eq!((s.width, s.height), (1, 300));
}

#[test]
fn configure_updates_the_translator_screen_size() {
    let mut s = surface(100, 100);
    s.configure(640, 480);
    assert_eq!(s.input_state.screen_width, 640);
    assert_eq!(s.input_state.screen_height, 480);
}

#[test]
fn scale_changes_renegotiate_and_repeats_are_noops() {
    let mut s = surface(100, 100);
    s.configure(100, 100);
    assert!(s.scale_factor_changed(2));
    assert_eq!(s.scale_factor, 2);
    assert_eq!(
        s.surface_config,
        Some(SurfaceConfig {
            width: 200,
            height: 200
        })
    );
    assert!(!s.scale_factor_changed(2));
    // A scale below one clamps to one.
    assert!(s.scale_factor_changed(0));
    assert_eq!(s.scale_factor, 1);
}

#[test]
fn a_configure_driven_render_does_not_rearm() {
    let mut s = surface(100, 100);
    s.configure(100, 100);
    let events = s.begin_frame();
    assert_eq!(events, vec![UiEvent::RedrawRequested]);
    assert!(!s.should_request_frame());
}

#[test]
fn an_input_driven_render_rearms() {
    let mut s = surface(100, 100);
    s.handle_pointer_event(&PointerEvent {
        x: 3,
        y: 4,
        kind: PointerEventKind::Motion,
    });
    let events = s.begin_frame();
    assert_eq!(
        events,
        vec![
            UiEvent::Mouse(MouseEvent::CursorMoved { x: 3, y: 4 }),
            UiEvent::RedrawRequested,
        ]
    );
    assert!(s.should_request_frame());
    // The next pass drained nothing, so it does not rearm again.
    let events = s.begin_frame();
    assert_eq!(events, vec![UiEvent::RedrawRequested]);
    assert!(!s.should_request_frame());
}

#[test]
fn messages_force_a_rebuild_and_reach_the_application() {
    let mut s = surface(100, 100);
    let d = s.apply_update_outcome(vec![7, 8, 9], MouseInteraction::Idle);
    assert!(d.rebuild);
    assert_eq!(s.iced_app.applied, vec![7, 8, 9]);
    let d = s.apply_update_outcome(Vec::new(), MouseInteraction::Idle);
    assert!(!d.rebuild);
}

#[test]
fn cursor_feedback_fires_once_per_change() {
    let mut s = surface(100, 100);
    let d = s.apply_update_outcome(Vec::new(), MouseInteraction::Pointer);
    assert_eq!(d.cursor_change, Some(CursorShape::Pointer));
    let d = s.apply_update_outcome(Vec::new(), MouseInteraction::Pointer);
    assert_eq!(d.cursor_change, None);
    let d = s.apply_update_outcome(Vec::new(), MouseInteraction::Text);
    assert_eq!(d.cursor_change, Some(CursorShape::Text));
}

#[test]
fn interactions_map_to_their_cursor_shapes() {
    assert_eq!(
        iced_to_cursor_shape(MouseInteraction::Idle),
        CursorShape::Default
    );
    assert_eq!(
        iced_to_cursor_shape(MouseInteraction::Hidden),
        CursorShape::Default
    );
    assert_eq!(
        iced_to_cursor_shape(MouseInteraction::ResizingHorizontally),
        CursorShape::EwResize
    );
    assert_eq!(
        iced_to_cursor_shape(MouseInteraction::ResizingDiagonallyDown),
        CursorShape::NwseResize
    );
    assert_eq!(
        iced_to_cursor_shape(MouseInteraction::Grabbing),
        CursorShape::Grabbing
    );
}

#[test]
fn physical_size_saturates_instead_of_wrapping() {
    let mut s = surface(0xffff_ffff, 2);
    s.configure(0xffff_ffff, 2);
    assert!(s.scale_factor_changed(1000));
    assert_eq!(
        s.surface_config,
        Some(SurfaceConfig {
            width: 0xffff_ffff,
            height: 2000
        })
    );
}

//! The software-rendered application path: tracking, listing, closing,
//! configure routing, pointer batches and the painted buffer.

use waybridge::application::Application;
use waybridge::application::solid_buffer;
use waybridge::application::u64_string;
use waybridge::input::MouseEvent;
use waybridge::input::PointerEvent;
use waybridge::input::PointerEventKind;
use waybridge::input::UiEvent;

#[test]
fn numbers_render_in_decimal() {
    assert_eq!(u64_string(0), "0");
    assert_eq!(u64_string(7), "7");
    assert_eq!(u64_string(42), "42");
    assert_eq!(u64_string(256), "256");
    assert_eq!(u64_string(4_294_967_295), "4294967295");
}

#[test]
fn tracked_windows_are_listed_in_creation_order() {
    let mut app = Application::new();
    assert_eq!(app.track_layer_surface(10), 0);
    assert_eq!(app.track_xdg_window(11), 1);
    let lines = app.list_windows();
    assert_eq!(
        lines,
        vec![
            "0: LayerSurface (256x256)".to_string(),
            "1: XDG Window (256x256)".to_string(),
        ]
    );
}

#[test]
fn closing_windows_shifts_the_rest_up() {
    let mut app = Application::new();
    app.track_layer_surface(10);
    app.track_xdg_window(11);
    assert_eq!(app.close_window(0), Some(()));
    assert_eq!(app.close_window(5), None);
    let lines = app.list_windows();
    assert_eq!(lines, vec!["0: XDG Window (256x256)".to_string()]);
}

#[test]
fn layer_configures_route_by_identity_and_clamp() {
    let mut app = Application::new();
    app.track_layer_surface(7);
    assert!(app.handle_layer_configure(7, 0, 300));
    assert_eq!((app.windows[0].width, app.windows[0].height), (1, 300));
    assert!(app.windows[0].has_buffer);
    assert_eq!(app.input_state.screen_width, 1);
    assert_eq!(app.input_state.screen_height, 300);
    // An unknown identity is a no-op, not an error.
    assert!(!app.handle_layer_configure(99, 50, 50));
    // A window-kind configure does not touch a layer surface.
    assert!(!app.handle_window_configure(7, Some(640), Some(480)));
}

#[test]
fn window_configures_default_unspecified_dimensions() {
    let mut app = Application::new();
    app.track_xdg_window(3);
    assert!(app.handle_window_configure(3, None, Some(300)));
    assert_eq!((app.windows[0].width, app.windows[0].height), (256, 300));
}

#[test]
fn pointer_batches_translate_in_order() {
    let mut app = Application::new();
    let batch = vec![
        PointerEvent {
            x: 4,
            y: 5,
            kind: PointerEventKind::Motion,
        },
        PointerEvent {
            x: 4,
            y: 5,
            kind: PointerEventKind::Axis {
                horizontal_discrete: 0,
                vertical_discrete: 0,
            },
        },
        PointerEvent {
            x: 4,
            y: 5,
            kind: PointerEventKind::Press { button: 0x110 },
        },
    ];
    app.pointer_frame(&batch);
    let events = app.input_state.take_events();
    assert_eq!(events.len(), 2);
    assert_eq!(events[0], UiEvent::Mouse(MouseEvent::CursorMoved { x: 4, y: 5 }));
    assert!(matches!(
        events[1],
        UiEvent::Mouse(MouseEvent::ButtonPressed(_))
    ));
}

#[test]
fn buffers_are_painted_the_solid_colour() {
    let buf = solid_buffer(2, 1);
    assert_eq!(buf, vec![0x30, 0x80, 0xc0, 0xff, 0x30, 0x80, 0xc0, 0xff]);
    assert_eq!(solid_buffer(0, 5), Vec::<u8>::new());
}

use charlie::geometry::Size;
use charlie::host::{
    self, HostInput, HostWindow, HostWindowEvent, HostWindows, TouchPhase, WinitEngineBackendError,
    WinitHostError, WinitInput,
};

#[test]
fn event_time_in_milliseconds() {
    assert_eq!(host::event_time(0, 0), 0);
    assert_eq!(host::event_time(1, 999_999), 1000);
    assert_eq!(host::event_time(2, 1_500_000), 2001);
    // wraps at 32 bits
    assert_eq!(host::event_time(4_294_968, 0), 704);
}

#[test]
fn resize_events_report_the_new_size() {
    let mut w = HostWindow::new(Size { w: 640, h: 480 }, false);
    let out = w.dispatch(5, HostWindowEvent::Resized { width: 800, height: 600 });
    assert_eq!(out, vec![HostInput::Resized { size: Size { w: 800, h: 600 } }]);
    assert_eq!(w.size, Size { w: 800, h: 600 });
    assert_eq!(w.resized, Some(Size { w: 800, h: 600 }));
    let out = w.dispatch(6, HostWindowEvent::ScaleFactorChanged { width: 1600, height: 1200 });
    assert_eq!(out, vec![HostInput::Resized { size: Size { w: 1600, h: 1200 } }]);
    assert_eq!(w.size, Size { w: 800, h: 600 });
    assert_eq!(w.resized, Some(Size { w: 1600, h: 1200 }));
}

#[test]
fn keyboard_events_count_held_keys() {
    let mut w = HostWindow::new(Size { w: 1, h: 1 }, false);
    let out = w.dispatch(1, HostWindowEvent::KeyboardInput { scancode: 30, pressed: true });
    assert_eq!(out, vec![HostInput::Keyboard { time: 1, key: 30, count: 1, pressed: true }]);
    let out = w.dispatch(2, HostWindowEvent::KeyboardInput { scancode: 31, pressed: true });
    assert_eq!(out, vec![HostInput::Keyboard { time: 2, key: 31, count: 2, pressed: true }]);
    w.dispatch(3, HostWindowEvent::KeyboardInput { scancode: 31, pressed: false });
    let out = w.dispatch(4, HostWindowEvent::KeyboardInput { scancode: 30, pressed: false });
    assert_eq!(out, vec![HostInput::Keyboard { time: 4, key: 30, count: 0, pressed: false }]);
    let out = w.dispatch(5, HostWindowEvent::KeyboardInput { scancode: 30, pressed: false });
    assert_eq!(out, vec![HostInput::Keyboard { time: 5, key: 30, count: 0, pressed: false }]);
    assert_eq!(w.rollover, 0);
}

#[test]
fn pointer_and_touch_events() {
    let mut w = HostWindow::new(Size { w: 1, h: 1 }, true);
    assert_eq!(w.dispatch(1, HostWindowEvent::CursorMoved), vec![HostInput::PointerMotionAbsolute { time: 1 }]);
    assert_eq!(w.dispatch(2, HostWindowEvent::MouseWheel), vec![HostInput::PointerAxis { time: 2 }]);
    assert_eq!(
        w.dispatch(3, HostWindowEvent::MouseInput { pressed: true }),
        vec![HostInput::PointerButton { time: 3, pressed: true, is_x11: true }]
    );
    assert_eq!(
        w.dispatch(4, HostWindowEvent::Touch { phase: TouchPhase::Started, id: 9 }),
        vec![HostInput::TouchDown { time: 4, id: 9 }]
    );
    assert_eq!(
        w.dispatch(5, HostWindowEvent::Touch { phase: TouchPhase::Moved, id: 9 }),
        vec![HostInput::TouchMotion { time: 5, id: 9 }]
    );
    assert_eq!(
        w.dispatch(6, HostWindowEvent::Touch { phase: TouchPhase::Ended, id: 9 }),
        vec![HostInput::TouchMotion { time: 6, id: 9 }, HostInput::TouchUp { time: 6, id: 9 }]
    );
    assert_eq!(
        w.dispatch(7, HostWindowEvent::Touch { phase: TouchPhase::Cancelled, id: 9 }),
        vec![HostInput::TouchCancel { time: 7, id: 9 }]
    );
    assert_eq!(w.dispatch(8, HostWindowEvent::Focused(true)), vec![HostInput::Focus(true)]);
    assert_eq!(w.dispatch(9, HostWindowEvent::Other), vec![]);
    assert!(!w.closing);
}

#[test]
fn close_request_closes_the_window() {
    let mut w = HostWindow::new(Size { w: 1, h: 1 }, false);
    assert_eq!(w.dispatch(1, HostWindowEvent::CloseRequested), vec![HostInput::DeviceRemoved]);
    assert!(w.closing);
    let mut w = HostWindow::new(Size { w: 1, h: 1 }, false);
    assert_eq!(w.dispatch(1, HostWindowEvent::Destroyed), vec![HostInput::DeviceRemoved]);
    assert!(w.closing);
}

#[test]
fn host_routes_events_by_window() {
    let mut host = HostWindows::new();
    assert_eq!(host.start(), Some(HostInput::DeviceAdded));
    assert_eq!(host.start(), None);
    host.window_add(1, HostWindow::new(Size { w: 10, h: 10 }, false));
    host.window_add(2, HostWindow::new(Size { w: 20, h: 20 }, false));
    let (out, closed) = host.window_event(2, 3, HostWindowEvent::Focused(false)).unwrap();
    assert_eq!(out, vec![HostInput::Focus(false)]);
    assert!(!closed);
    assert!(host.window_event(3, 3, HostWindowEvent::Focused(false)).is_none());
    assert!(host.window_event(3, 3, HostWindowEvent::CloseRequested).is_none());
    let (out, _) = host.window_event(1, 4, HostWindowEvent::Resized { width: 5, height: 6 }).unwrap();
    assert_eq!(out, vec![HostInput::Resized { size: Size { w: 5, h: 6 } }]);
}

#[test]
fn adding_a_window_under_a_used_id_replaces_it() {
    let mut host = HostWindows::new();
    host.window_add(5, HostWindow::new(Size { w: 10, h: 10 }, false));
    host.window_event(5, 0, HostWindowEvent::KeyboardInput { scancode: 1, pressed: true });
    host.window_add(5, HostWindow::new(Size { w: 10, h: 10 }, true));
    // the new window counts no held key and reports its own host
    let (out, _) = host.window_event(5, 1, HostWindowEvent::KeyboardInput { scancode: 2, pressed: true }).unwrap();
    assert_eq!(out, vec![HostInput::Keyboard { time: 1, key: 2, count: 1, pressed: true }]);
    let (out, _) = host.window_event(5, 2, HostWindowEvent::MouseInput { pressed: true }).unwrap();
    assert_eq!(out, vec![HostInput::PointerButton { time: 2, pressed: true, is_x11: true }]);
}

#[test]
fn host_keeps_per_window_key_counts() {
    let mut host = HostWindows::new();
    host.window_add(1, HostWindow::new(Size { w: 10, h: 10 }, false));
    host.window_event(1, 0, HostWindowEvent::KeyboardInput { scancode: 1, pressed: true });
    let (out, _) = host.window_event(1, 0, HostWindowEvent::KeyboardInput { scancode: 2, pressed: true }).unwrap();
    assert_eq!(out, vec![HostInput::Keyboard { time: 0, key: 2, count: 2, pressed: true }]);
}

#[test]
fn error_and_input_types() {
    assert_eq!(WinitHostError::WindowClosed, WinitHostError::WindowClosed);
    assert_eq!(WinitEngineBackendError::WindowClosed, WinitEngineBackendError::WindowClosed);
    assert_eq!(WinitInput {}, WinitInput {});
    assert_eq!(WinitHostError::WindowClosed.description(), "WindowClosed");
    assert_eq!(WinitEngineBackendError::WindowClosed.description(), "WindowClosed");
}

#[test]
fn closing_a_window_drops_it_from_the_host() {
    let mut host = HostWindows::new();
    host.window_add(1, HostWindow::new(Size { w: 10, h: 10 }, false));
    host.window_add(2, HostWindow::new(Size { w: 20, h: 20 }, false));
    let (out, closed) = host.window_event(1, 4, HostWindowEvent::CloseRequested).unwrap();
    assert_eq!(out, vec![HostInput::DeviceRemoved]);
    assert!(closed);
    assert!(host.window_event(1, 5, HostWindowEvent::Focused(true)).is_none());
    let (_, closed) = host.window_event(2, 5, HostWindowEvent::Destroyed).unwrap();
    assert!(closed);
    assert!(host.window_event(2, 6, HostWindowEvent::Focused(true)).is_none());
}

#[test]
fn windows_not_set_up_ignore_events() {
    let mut w = HostWindow::new_uninitialized(Size { w: 10, h: 10 }, false);
    assert!(!w.initialized);
    assert_eq!(w.dispatch(1, HostWindowEvent::KeyboardInput { scancode: 3, pressed: true }), vec![]);
    assert_eq!(w.dispatch(2, HostWindowEvent::CloseRequested), vec![]);
    assert_eq!(w.rollover, 0);
    assert!(!w.closing);
    assert!(!w.init());
    assert!(w.init());
    assert_eq!(w.dispatch(3, HostWindowEvent::Focused(true)), vec![HostInput::Focus(true)]);
}

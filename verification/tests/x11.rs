use std::collections::HashMap;
use charlie::geometry::Point;
use charlie::x11::{
    self, ConfigureRequest, Unpaired, WindowConfig, X11Action, X11Atoms, X11Event, X11Surface,
};
use x11rb::protocol::xproto::ConfigWindow;

fn request(value_mask: u16) -> ConfigureRequest {
    ConfigureRequest {
        window: 7,
        sibling: 8,
        x: -5,
        y: 6,
        width: 640,
        height: 480,
        border_width: 2,
        value_mask,
        stack_mode: 1,
    }
}

fn atoms() -> X11Atoms {
    X11Atoms { wm_s0: 1, wl_surface_id: 2, close_connection: 3 }
}

#[test]
fn mask_bits_are_those_of_the_protocol() {
    assert_eq!(x11::CONFIG_X, u16::from(ConfigWindow::X));
    assert_eq!(x11::CONFIG_Y, u16::from(ConfigWindow::Y));
    assert_eq!(x11::CONFIG_WIDTH, u16::from(ConfigWindow::WIDTH));
    assert_eq!(x11::CONFIG_HEIGHT, u16::from(ConfigWindow::HEIGHT));
    assert_eq!(x11::CONFIG_BORDER_WIDTH, u16::from(ConfigWindow::BORDER_WIDTH));
    assert_eq!(x11::CONFIG_SIBLING, u16::from(ConfigWindow::SIBLING));
    assert_eq!(x11::CONFIG_STACK_MODE, u16::from(ConfigWindow::STACK_MODE));
}

#[test]
fn configure_grants_exactly_the_requested_fields() {
    let all = x11::x11_configure(&request(0x7f));
    assert_eq!(
        all,
        WindowConfig {
            x: Some(-5),
            y: Some(6),
            width: Some(640),
            height: Some(480),
            border_width: Some(2),
            sibling: Some(8),
            stack_mode: Some(1),
        }
    );
    let none = x11::x11_configure(&request(0));
    assert_eq!(
        none,
        WindowConfig { x: None, y: None, width: None, height: None, border_width: None, sibling: None, stack_mode: None }
    );
    let size_only = x11::x11_configure(&request(x11::CONFIG_WIDTH | x11::CONFIG_HEIGHT | 0x100));
    assert_eq!(size_only.width, Some(640));
    assert_eq!(size_only.height, Some(480));
    assert_eq!(size_only.x, None);
    assert_eq!(size_only.stack_mode, None);
}

#[test]
fn handle_answers_each_event() {
    assert_eq!(
        x11::x11_handle(&atoms(), X11Event::ConfigureRequest(request(x11::CONFIG_X))),
        X11Action::Configure { window: 7, config: x11::x11_configure(&request(x11::CONFIG_X)) }
    );
    assert_eq!(x11::x11_handle(&atoms(), X11Event::MapRequest { window: 4 }), X11Action::MapWindow { window: 4 });
    assert_eq!(
        x11::x11_handle(&atoms(), X11Event::ClientMessage { window: 4, type_: 2, data0: 77 }),
        X11Action::PairSurface { window: 4, surface_id: 77 }
    );
    assert_eq!(
        x11::x11_handle(&atoms(), X11Event::ClientMessage { window: 4, type_: 3, data0: 77 }),
        X11Action::Nothing
    );
    assert_eq!(x11::x11_handle(&atoms(), X11Event::Other), X11Action::Nothing);
}

#[test]
fn surfaces_announced_early_wait_unpaired() {
    let mut unpaired: Unpaired = HashMap::new();
    let r = x11::x11_pair_surface(4, 77, Some((10, -20)), false, &mut unpaired);
    assert_eq!(r, None);
    assert_eq!(unpaired.get(&77), Some(&(4, Point { x: 10, y: -20 })));
    let r = x11::x11_pair_surface(5, 78, None, true, &mut unpaired);
    assert_eq!(r, Some((5, 78, Point { x: 0, y: 0 })));
    assert_eq!(unpaired.len(), 1);
    let r = x11::x11_pair_surface(6, 79, None, false, &mut unpaired);
    assert_eq!(r, None);
    assert_eq!(unpaired.get(&79), Some(&(6, Point { x: 0, y: 0 })));
}

#[test]
fn new_window_needs_the_x11_role() {
    assert_eq!(x11::x11_new_window(4, 77, Point { x: 0, y: 0 }, true), Some(X11Surface { surface: 77 }));
    assert_eq!(x11::x11_new_window(4, 77, Point { x: 0, y: 0 }, false), None);
}

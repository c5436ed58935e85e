use charlie::geometry::{Point, Size};
use charlie::pointer::{self, CursorStatus, MouseButton};
use charlie::surface_tree::SurfaceTree;
use charlie::window_map::{SurfaceKind, WindowMap};

fn leaf() -> SurfaceTree {
    SurfaceTree { size: Some(Size { w: 10, h: 10 }), subsurface_offset: None, children: vec![] }
}

fn three_windows() -> WindowMap {
    let mut map = WindowMap::default();
    for id in 1..4 {
        map.insert(SurfaceKind::Xdg(id), Point { x: 0, y: 0 }, &leaf());
    }
    map
}

#[test]
fn button_codes_are_linux_input_codes() {
    assert_eq!(pointer::button_code(MouseButton::Left), 0x110);
    assert_eq!(pointer::button_code(MouseButton::Right), 0x111);
    assert_eq!(pointer::button_code(MouseButton::Middle), 0x112);
    assert_eq!(pointer::button_code(MouseButton::Other(0x13)), 0x13);
}

#[test]
fn press_on_a_window_raises_and_focuses_it() {
    let mut map = three_windows();
    let mut dragging = false;
    let out = pointer::on_button(&mut map, &mut dragging, MouseButton::Left, true, false, Some((1, 42)));
    assert_eq!(out.code, 0x110);
    assert!(out.pressed);
    assert_eq!(out.focus, Some(42));
    assert_eq!(map.windows(), vec![SurfaceKind::Xdg(2), SurfaceKind::Xdg(3), SurfaceKind::Xdg(1)]);
    assert_eq!(out.activations.last(), Some(&(SurfaceKind::Xdg(2), true)));
    assert!(!dragging);
}

#[test]
fn press_on_the_background_drags_it_until_release() {
    let mut map = three_windows();
    let mut dragging = false;
    let out = pointer::on_button(&mut map, &mut dragging, MouseButton::Right, true, false, None);
    assert!(dragging);
    assert_eq!(out.focus, None);
    assert_eq!(map.windows(), vec![SurfaceKind::Xdg(3), SurfaceKind::Xdg(2), SurfaceKind::Xdg(1)]);
    let out = pointer::on_button(&mut map, &mut dragging, MouseButton::Right, false, false, None);
    assert!(!dragging);
    assert!(!out.pressed);
    assert_eq!(out.code, 0x111);
}

#[test]
fn grabbed_pointer_changes_no_focus() {
    let mut map = three_windows();
    let mut dragging = false;
    let out = pointer::on_button(&mut map, &mut dragging, MouseButton::Left, true, true, Some((2, 1)));
    assert_eq!(out.focus, None);
    assert!(out.activations.is_empty());
    assert!(!dragging);
    assert_eq!(map.windows(), vec![SurfaceKind::Xdg(3), SurfaceKind::Xdg(2), SurfaceKind::Xdg(1)]);
}

#[test]
fn dead_cursor_surfaces_give_way_to_the_default_image() {
    let mut status = CursorStatus::Surface(5);
    assert!(!pointer::refresh_cursor(&mut status, true));
    assert_eq!(status, CursorStatus::Surface(5));
    assert!(pointer::refresh_cursor(&mut status, false));
    assert_eq!(status, CursorStatus::Default);
    let mut hidden = CursorStatus::Hidden;
    assert!(pointer::refresh_cursor(&mut hidden, false));
    assert_eq!(hidden, CursorStatus::Hidden);
}

#[test]
fn cursor_surface_hotspot_sits_on_the_pointer() {
    let at = Point { x: 100, y: 50 };
    assert_eq!(pointer::cursor_surface_location(at, Some(Point { x: 4, y: 6 })), Point { x: 96, y: 44 });
    assert_eq!(pointer::cursor_surface_location(at, None), at);
}

#[test]
fn grabs_end_when_their_buttons_are_up() {
    assert!(pointer::left_grab_released(&vec![]));
    assert!(pointer::left_grab_released(&vec![0x111, 0x112]));
    assert!(!pointer::left_grab_released(&vec![0x111, pointer::BTN_LEFT]));
    assert!(pointer::grab_released(&vec![]));
    assert!(!pointer::grab_released(&vec![0x111]));
}

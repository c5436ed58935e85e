use charlie::compositor::{self, Compositor, GrabQuery};
use charlie::edges::{self, ResizeEdge};
use charlie::geometry::{Point, Rectangle, Size};
use charlie::resize::{MoveSurfaceGrab, ResizeData, ResizeState, ResizeSurfaceGrab};
use charlie::surface_tree::SurfaceTree;
use charlie::window_map::{Popup, PopupKind, SurfaceKind};

fn leaf(w: i32, h: i32) -> SurfaceTree {
    SurfaceTree { size: Some(Size { w, h }), subsurface_offset: None, children: vec![] }
}

fn rect(x: i32, y: i32, w: i32, h: i32) -> Rectangle {
    Rectangle::from_loc_and_size(Point { x, y }, Size { w, h })
}

#[test]
fn new_windows_go_on_the_primary_output_or_a_default_square() {
    assert_eq!(compositor::placement_area(None), rect(0, 0, 800, 800));
    assert_eq!(compositor::placement_area(Some(rect(1920, 0, 1280, 1024))), rect(1920, 0, 1280, 1024));
}

#[test]
fn new_toplevel_lands_in_the_left_two_thirds() {
    let mut c = Compositor::init();
    let area = rect(100, 50, 300, 300);
    let mut xs = Vec::new();
    for id in 0..50u64 {
        let at = c.xdg_new_toplevel(id, area, 300, 250, &leaf(10, 10));
        xs.push(at.x);
        assert!(100 <= at.x && at.x < 300);
        assert!(50 <= at.y && at.y < 250);
        assert_eq!(c.window_map.location(SurfaceKind::Xdg(id)), Some(at));
        assert_eq!(c.window_map.windows()[0], SurfaceKind::Xdg(id));
    }
    // the locations are drawn at random, not pinned to the corner
    assert!(xs.iter().any(|&x| x != xs[0]));
    let at = c.set_toplevel(99, area, 101, 51, &leaf(1, 1));
    assert_eq!(at, Point { x: 100, y: 50 });
    assert_eq!(c.window_map.find(99), Some(SurfaceKind::Wl(99)));
}

#[test]
fn new_popup_is_recorded() {
    let mut c = Compositor::init();
    c.xdg_new_popup(5);
    assert_eq!(c.window_map.find_popup(5), Some(PopupKind::Xdg(5)));
    assert!(c.window_map.windows().is_empty());
    let _ = Popup { popup: PopupKind::Xdg(5) };
}

#[test]
fn check_grab_needs_a_grab_of_the_same_client() {
    assert_eq!(compositor::check_grab::<u32>(None), None);
    let q = |has_grab, start_data, focus_same_client| GrabQuery { has_grab, start_data, focus_same_client };
    assert_eq!(compositor::check_grab(Some(q(true, Some(7u32), Some(true)))), Some(7));
    assert_eq!(compositor::check_grab(Some(q(false, Some(7u32), Some(true)))), None);
    assert_eq!(compositor::check_grab(Some(q(true, None::<u32>, Some(true)))), None);
    assert_eq!(compositor::check_grab(Some(q(true, Some(7u32), Some(false)))), None);
    assert_eq!(compositor::check_grab(Some(q(true, Some(7u32), None))), None);
}

#[test]
fn fullscreen_output_choice() {
    let a = rect(0, 0, 10, 10);
    let b = rect(10, 0, 10, 10);
    let c = rect(20, 0, 10, 10);
    assert_eq!(compositor::fullscreen_output_geometry(Some(Some(a)), Some(b), Some(c)), Some(a));
    assert_eq!(compositor::fullscreen_output_geometry(Some(None), Some(b), Some(c)), None);
    assert_eq!(compositor::fullscreen_output_geometry(None, Some(b), Some(c)), Some(b));
    assert_eq!(compositor::fullscreen_output_geometry(None, None, Some(c)), Some(c));
    assert_eq!(compositor::fullscreen_output_geometry(None, None, None), None);
}

#[test]
fn fullscreen_and_maximize_move_to_the_output_corner() {
    let mut c = Compositor::init();
    c.set_fullscreen(3, Some(rect(1920, 0, 1280, 1024)), &leaf(10, 10));
    assert_eq!(c.window_map.location(SurfaceKind::Wl(3)), Some(Point { x: 1920, y: 0 }));
    c.set_fullscreen(4, None, &leaf(10, 10));
    assert_eq!(c.window_map.find(4), None);

    c.xdg_new_toplevel(8, rect(0, 0, 100, 100), 50, 50, &leaf(10, 10));
    let size = c.xdg_fill_output(8, Some(rect(640, 10, 800, 600)), &leaf(10, 10));
    assert_eq!(size, Some(Size { w: 800, h: 600 }));
    assert_eq!(c.window_map.location(SurfaceKind::Xdg(8)), Some(Point { x: 640, y: 10 }));
    assert_eq!(c.xdg_fill_output(8, None, &leaf(10, 10)), None);
    assert_eq!(c.window_map.location(SurfaceKind::Xdg(8)), Some(Point { x: 640, y: 10 }));
    assert_eq!(c.xdg_fill_output(77, Some(rect(0, 0, 5, 5)), &leaf(1, 1)), Some(Size { w: 5, h: 5 }));
}

#[test]
fn resize_request_starts_from_the_window_geometry() {
    let mut c = Compositor::init();
    c.set_fullscreen(3, Some(rect(30, 40, 0, 0)), &leaf(200, 100));
    let t = SurfaceKind::Wl(3);
    let e = ResizeEdge::from_bits(edges::TOP_LEFT).unwrap();
    let mut state = ResizeState::NotResizing;
    let grab = c.shell_resize(t, true, Some(true), e, None, &mut state).unwrap();
    assert_eq!(
        grab,
        ResizeSurfaceGrab { window: t, edges: e, initial_rect: rect(30, 40, 200, 100), last_window_size: Size { w: 200, h: 100 } }
    );
    assert_eq!(
        state,
        ResizeState::Resizing(ResizeData {
            edges: e,
            initial_window_location: Point { x: 30, y: 40 },
            initial_window_size: Size { w: 200, h: 100 },
        })
    );
    let mut state2 = ResizeState::NotResizing;
    let grab = c.xdg_resize(t, true, Some(true), e, Some(rect(0, 0, 150, 90)), &mut state2).unwrap();
    assert_eq!(grab.initial_rect, rect(30, 40, 150, 90));
}

#[test]
fn resize_request_without_matching_grab_is_ignored() {
    let mut c = Compositor::init();
    c.set_fullscreen(3, Some(rect(0, 0, 0, 0)), &leaf(1, 1));
    let t = SurfaceKind::Wl(3);
    let e = ResizeEdge::from_bits(edges::RIGHT).unwrap();
    let mut state = ResizeState::NotResizing;
    assert_eq!(c.xdg_resize(t, false, Some(true), e, None, &mut state), None);
    assert_eq!(c.xdg_resize(t, true, Some(false), e, None, &mut state), None);
    assert_eq!(c.shell_resize(t, true, None, e, None, &mut state), None);
    assert_eq!(state, ResizeState::NotResizing);
}

#[test]
fn move_requests() {
    let mut c = Compositor::init();
    c.set_fullscreen(3, Some(rect(5, 6, 0, 0)), &leaf(1, 1));
    let t = SurfaceKind::Wl(3);
    assert_eq!(
        c.shell_move(t, true, Some(true)),
        Some(MoveSurfaceGrab { window: t, initial_window_location: Point { x: 5, y: 6 } })
    );
    assert_eq!(c.shell_move(t, true, None), None);
    assert_eq!(c.shell_move(t, false, Some(true)), None);
    assert_eq!(
        c.xdg_move(t, true, Some(true), None),
        Some(MoveSurfaceGrab { window: t, initial_window_location: Point { x: 5, y: 6 } })
    );
    assert_eq!(
        c.xdg_move(t, true, Some(true), Some(Point { x: -1, y: -2 })),
        Some(MoveSurfaceGrab { window: t, initial_window_location: Point { x: -1, y: -2 } })
    );
    assert_eq!(c.xdg_move(t, true, Some(false), None), None);
}

use charlie::geometry::{Point, Rectangle, Size};
use charlie::resize::{ResizeData, ResizeState};
use charlie::edges::{self, ResizeEdge};
use charlie::surface_tree::SurfaceTree;
use charlie::window_map::{PopupKind, SurfaceKind, Window, WindowMap};

fn leaf(w: i32, h: i32) -> SurfaceTree {
    SurfaceTree { size: Some(Size { w, h }), subsurface_offset: None, children: vec![] }
}

fn rect(x: i32, y: i32, w: i32, h: i32) -> Rectangle {
    Rectangle::from_loc_and_size(Point { x, y }, Size { w, h })
}

fn bbox_of(map: &WindowMap, t: SurfaceKind) -> Rectangle {
    map.with_windows_from_bottom_to_top()
        .into_iter()
        .find(|(k, _, _)| *k == t)
        .map(|(_, _, b)| b)
        .unwrap()
}

#[test]
fn inserted_window_is_on_top_at_its_location() {
    let mut map = WindowMap::default();
    map.insert(SurfaceKind::Xdg(1), Point { x: 10, y: 20 }, &leaf(100, 50));
    map.insert(SurfaceKind::Wl(2), Point { x: 0, y: 0 }, &leaf(30, 30));
    assert_eq!(map.windows(), vec![SurfaceKind::Wl(2), SurfaceKind::Xdg(1)]);
    assert_eq!(map.location(SurfaceKind::Xdg(1)), Some(Point { x: 10, y: 20 }));
    assert_eq!(map.location(SurfaceKind::Wl(2)), Some(Point { x: 0, y: 0 }));
    assert_eq!(map.location(SurfaceKind::X11(3)), None);
    assert_eq!(bbox_of(&map, SurfaceKind::Xdg(1)), rect(10, 20, 100, 50));
}

#[test]
fn bounding_box_covers_subsurfaces_and_skips_unmapped_ones() {
    let tree = SurfaceTree {
        size: Some(Size { w: 100, h: 100 }),
        subsurface_offset: None,
        children: vec![
            SurfaceTree {
                size: Some(Size { w: 20, h: 20 }),
                subsurface_offset: Some(Point { x: -10, y: 90 }),
                children: vec![],
            },
            SurfaceTree {
                size: None,
                subsurface_offset: Some(Point { x: 500, y: 500 }),
                children: vec![leaf(1000, 1000)],
            },
        ],
    };
    let mut map = WindowMap::default();
    map.insert(SurfaceKind::Xdg(1), Point { x: 50, y: 50 }, &tree);
    assert_eq!(bbox_of(&map, SurfaceKind::Xdg(1)), rect(40, 50, 110, 110));
    let unmapped = SurfaceTree { size: None, subsurface_offset: None, children: vec![leaf(5, 5)] };
    assert_eq!(SurfaceTree::bounding_box(Point { x: 7, y: 8 }, &unmapped), rect(7, 8, 0, 0));
}

#[test]
fn set_location_moves_the_window_and_its_box() {
    let mut map = WindowMap::default();
    map.insert(SurfaceKind::Xdg(1), Point { x: 0, y: 0 }, &leaf(40, 30));
    map.set_location(SurfaceKind::Xdg(1), Point { x: 5, y: 6 }, &leaf(40, 30));
    assert_eq!(map.location(SurfaceKind::Xdg(1)), Some(Point { x: 5, y: 6 }));
    assert_eq!(bbox_of(&map, SurfaceKind::Xdg(1)), rect(5, 6, 40, 30));
    map.set_location(SurfaceKind::Xdg(9), Point { x: 1, y: 1 }, &leaf(1, 1));
    assert_eq!(map.windows(), vec![SurfaceKind::Xdg(1)]);
}

#[test]
fn geometry_falls_back_to_the_bounding_box() {
    let mut map = WindowMap::default();
    map.insert(SurfaceKind::Xdg(1), Point { x: 1, y: 2 }, &leaf(3, 4));
    assert_eq!(map.geometry(SurfaceKind::Xdg(1), None), Some(rect(1, 2, 3, 4)));
    assert_eq!(map.geometry(SurfaceKind::Xdg(1), Some(rect(0, 0, 9, 9))), Some(rect(0, 0, 9, 9)));
    assert_eq!(map.geometry(SurfaceKind::Wl(1), None), None);
    let w = Window { location: Point { x: 0, y: 0 }, bbox: rect(0, 0, 2, 2), toplevel: SurfaceKind::Wl(4) };
    assert_eq!(w.geometry(None), rect(0, 0, 2, 2));
}

#[test]
fn find_by_surface_and_popups() {
    let mut map = WindowMap::default();
    map.insert(SurfaceKind::Wl(7), Point { x: 0, y: 0 }, &leaf(1, 1));
    map.insert(SurfaceKind::X11(8), Point { x: 0, y: 0 }, &leaf(1, 1));
    assert_eq!(map.find(7), Some(SurfaceKind::Wl(7)));
    assert_eq!(map.find(8), Some(SurfaceKind::X11(8)));
    assert_eq!(map.find(9), None);
    map.insert_popup(PopupKind::Xdg(20));
    map.insert_popup(PopupKind::Xdg(21));
    assert_eq!(map.find_popup(21), Some(PopupKind::Xdg(21)));
    assert_eq!(map.find_popup(7), None);
    assert_eq!(PopupKind::Xdg(21).get_surface(), 21);
    assert_eq!(SurfaceKind::X11(8).get_surface(), 8);
}

#[test]
fn child_popups_most_recent_first() {
    let mut map = WindowMap::default();
    map.insert_popup(PopupKind::Xdg(1));
    map.insert_popup(PopupKind::Xdg(2));
    map.insert_popup(PopupKind::Xdg(3));
    let parents = vec![Some(100), None, Some(100)];
    assert_eq!(map.with_child_popups(100, &parents), vec![PopupKind::Xdg(3), PopupKind::Xdg(1)]);
    assert_eq!(map.with_child_popups(5, &parents), vec![]);
}

#[test]
fn windows_from_bottom_to_top() {
    let mut map = WindowMap::default();
    map.insert(SurfaceKind::Xdg(1), Point { x: 1, y: 1 }, &leaf(1, 1));
    map.insert(SurfaceKind::Xdg(2), Point { x: 2, y: 2 }, &leaf(2, 2));
    let all = map.with_windows_from_bottom_to_top();
    assert_eq!(
        all,
        vec![
            (SurfaceKind::Xdg(1), Point { x: 1, y: 1 }, rect(1, 1, 1, 1)),
            (SurfaceKind::Xdg(2), Point { x: 2, y: 2 }, rect(2, 2, 2, 2)),
        ]
    );
}

#[test]
fn refresh_drops_dead_windows_and_popups() {
    let mut map = WindowMap::default();
    map.insert(SurfaceKind::Xdg(1), Point { x: 0, y: 0 }, &leaf(1, 1));
    map.insert(SurfaceKind::Xdg(2), Point { x: 10, y: 10 }, &leaf(1, 1));
    map.insert(SurfaceKind::Xdg(3), Point { x: 20, y: 20 }, &leaf(1, 1));
    map.insert_popup(PopupKind::Xdg(4));
    map.insert_popup(PopupKind::Xdg(5));
    // topmost first: 3, 2, 1
    map.refresh(&vec![true, false, true], &vec![leaf(7, 7), leaf(1, 1), leaf(8, 8)], &vec![false, true]);
    assert_eq!(map.windows(), vec![SurfaceKind::Xdg(3), SurfaceKind::Xdg(1)]);
    assert_eq!(bbox_of(&map, SurfaceKind::Xdg(3)), rect(20, 20, 7, 7));
    assert_eq!(bbox_of(&map, SurfaceKind::Xdg(1)), rect(0, 0, 8, 8));
    assert_eq!(map.find_popup(4), None);
    assert_eq!(map.find_popup(5), Some(PopupKind::Xdg(5)));
}

#[test]
fn refresh_toplevel_recomputes_one_box() {
    let mut map = WindowMap::default();
    map.insert(SurfaceKind::Xdg(1), Point { x: 3, y: 3 }, &leaf(1, 1));
    map.refresh_toplevel(SurfaceKind::Xdg(1), &leaf(50, 60));
    assert_eq!(bbox_of(&map, SurfaceKind::Xdg(1)), rect(3, 3, 50, 60));
    map.refresh_toplevel(SurfaceKind::Xdg(2), &leaf(50, 60));
    assert_eq!(map.windows(), vec![SurfaceKind::Xdg(1)]);
}

#[test]
fn clear_unmaps_every_window() {
    let mut map = WindowMap::default();
    map.insert(SurfaceKind::Xdg(1), Point { x: 0, y: 0 }, &leaf(1, 1));
    map.insert_popup(PopupKind::Xdg(2));
    map.clear();
    assert!(map.windows().is_empty());
    assert_eq!(map.location(SurfaceKind::Xdg(1)), None);
    assert_eq!(map.find_popup(2), Some(PopupKind::Xdg(2)));
}

#[test]
fn bring_to_top_raises_and_activates() {
    let mut map = WindowMap::default();
    map.insert(SurfaceKind::Xdg(1), Point { x: 0, y: 0 }, &leaf(1, 1));
    map.insert(SurfaceKind::Xdg(2), Point { x: 0, y: 0 }, &leaf(1, 1));
    map.insert(SurfaceKind::Xdg(3), Point { x: 0, y: 0 }, &leaf(1, 1));
    let activations = map.bring_to_top(2);
    assert_eq!(map.windows(), vec![SurfaceKind::Xdg(1), SurfaceKind::Xdg(3), SurfaceKind::Xdg(2)]);
    assert_eq!(
        activations,
        vec![(SurfaceKind::Xdg(3), false), (SurfaceKind::Xdg(2), false), (SurfaceKind::Xdg(1), true)]
    );
    let again = map.bring_to_top(0);
    assert_eq!(map.windows(), vec![SurfaceKind::Xdg(1), SurfaceKind::Xdg(3), SurfaceKind::Xdg(2)]);
    assert_eq!(again.last(), Some(&(SurfaceKind::Xdg(1), true)));
}

#[test]
fn windows_to_draw_keep_those_on_the_output() {
    let mut map = WindowMap::default();
    map.insert(SurfaceKind::Xdg(1), Point { x: 100, y: 0 }, &leaf(50, 50));
    map.insert(SurfaceKind::Xdg(2), Point { x: 2000, y: 0 }, &leaf(50, 50));
    map.insert(SurfaceKind::Xdg(3), Point { x: 900, y: 10 }, &leaf(200, 50));
    let output = rect(800, 0, 800, 600);
    assert_eq!(
        map.windows_to_draw(output),
        vec![(SurfaceKind::Xdg(3), Point { x: 100, y: 10 })]
    );
    let first = rect(0, 0, 800, 600);
    assert_eq!(
        map.windows_to_draw(first),
        vec![(SurfaceKind::Xdg(1), Point { x: 100, y: 0 })]
    );
}

#[test]
fn commit_refreshes_the_window_and_asks_for_initial_configure() {
    let mut map = WindowMap::default();
    map.insert(SurfaceKind::Xdg(1), Point { x: 10, y: 10 }, &leaf(1, 1));
    map.insert_popup(PopupKind::Xdg(2));
    let mut state = ResizeState::NotResizing;
    let out = map.commit(1, &leaf(30, 40), None, &mut state, false, false);
    assert_eq!(out.configure_toplevel, Some(SurfaceKind::Xdg(1)));
    assert_eq!(out.configure_popup, None);
    assert_eq!(bbox_of(&map, SurfaceKind::Xdg(1)), rect(10, 10, 30, 40));
    let out = map.commit(1, &leaf(30, 40), None, &mut state, true, false);
    assert_eq!(out.configure_toplevel, None);
    let out = map.commit(2, &leaf(5, 5), None, &mut state, true, false);
    assert_eq!(out.configure_popup, Some(PopupKind::Xdg(2)));
    assert_eq!(out.configure_toplevel, None);
    let out = map.commit(2, &leaf(5, 5), None, &mut state, true, true);
    assert_eq!(out.configure_popup, None);
}

#[test]
fn commit_during_resize_from_top_left_keeps_bottom_right_corner() {
    let mut map = WindowMap::default();
    map.insert(SurfaceKind::Xdg(1), Point { x: 100, y: 100 }, &leaf(200, 150));
    let edges = ResizeEdge::from_bits(edges::TOP_LEFT).unwrap();
    let data = ResizeData {
        edges,
        initial_window_location: Point { x: 100, y: 100 },
        initial_window_size: Size { w: 200, h: 150 },
    };
    let mut state = ResizeState::Resizing(data);
    map.commit(1, &leaf(250, 100), None, &mut state, true, true);
    assert_eq!(map.location(SurfaceKind::Xdg(1)), Some(Point { x: 50, y: 150 }));
    assert_eq!(bbox_of(&map, SurfaceKind::Xdg(1)), rect(50, 150, 250, 100));
    assert_eq!(state, ResizeState::Resizing(data));
    let mut waiting = ResizeState::WaitingForCommit(data);
    map.commit(1, &leaf(220, 150), None, &mut waiting, true, true);
    assert_eq!(waiting, ResizeState::NotResizing);
    assert_eq!(map.location(SurfaceKind::Xdg(1)), Some(Point { x: 80, y: 100 }));
}

#[test]
fn commit_of_an_unknown_surface_changes_nothing() {
    let mut map = WindowMap::default();
    map.insert(SurfaceKind::Wl(1), Point { x: 0, y: 0 }, &leaf(1, 1));
    let mut state = ResizeState::NotResizing;
    let out = map.commit(42, &leaf(5, 5), None, &mut state, false, false);
    assert_eq!(out.configure_toplevel, None);
    assert_eq!(out.configure_popup, None);
    assert_eq!(bbox_of(&map, SurfaceKind::Wl(1)), rect(0, 0, 1, 1));
}

#[test]
fn wl_shell_windows_need_no_configure() {
    let mut map = WindowMap::default();
    map.insert(SurfaceKind::Wl(1), Point { x: 0, y: 0 }, &leaf(1, 1));
    let mut state = ResizeState::NotResizing;
    let out = map.commit(1, &leaf(5, 5), None, &mut state, false, false);
    assert_eq!(out.configure_toplevel, None);
}

#[test]
fn frames_go_to_every_window() {
    let mut map = WindowMap::default();
    map.insert(SurfaceKind::Xdg(1), Point { x: 0, y: 0 }, &leaf(1, 1));
    map.insert(SurfaceKind::Wl(2), Point { x: 0, y: 0 }, &leaf(1, 1));
    assert_eq!(map.send_frames(77), vec![(SurfaceKind::Wl(2), 77), (SurfaceKind::Xdg(1), 77)]);
    assert!(WindowMap::default().send_frames(1).is_empty());
}

#[test]
fn refreshing_twice_changes_nothing_more() {
    let mut map = WindowMap::default();
    map.insert(SurfaceKind::Xdg(1), Point { x: 0, y: 0 }, &leaf(1, 1));
    map.insert(SurfaceKind::Xdg(2), Point { x: 10, y: 10 }, &leaf(1, 1));
    map.insert_popup(PopupKind::Xdg(4));
    map.insert_popup(PopupKind::Xdg(5));
    map.refresh(&vec![false, true], &vec![leaf(3, 3), leaf(4, 4)], &vec![true, false]);
    let once = map.with_windows_from_bottom_to_top();
    map.refresh(&vec![true], &vec![leaf(4, 4)], &vec![true]);
    assert_eq!(map.with_windows_from_bottom_to_top(), once);
    assert_eq!(map.find_popup(4), Some(PopupKind::Xdg(4)));
    assert_eq!(map.find_popup(5), None);
}

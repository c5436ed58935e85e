use charlie::edges::{self, ResizeEdge};
use charlie::geometry::{Point, Rectangle, Size};
use charlie::resize::{ResizeData, ResizeState, ResizeSurfaceGrab, ResizeSurfaceState};
use charlie::window_map::SurfaceKind;

fn data(bits: u32) -> ResizeData {
    ResizeData {
        edges: ResizeEdge::from_bits(bits).unwrap(),
        initial_window_location: Point { x: 100, y: 200 },
        initial_window_size: Size { w: 300, h: 400 },
    }
}

fn rect(x: i32, y: i32, w: i32, h: i32) -> Rectangle {
    Rectangle::from_loc_and_size(Point { x, y }, Size { w, h })
}

#[test]
fn default_states_are_idle() {
    assert_eq!(ResizeState::default(), ResizeState::NotResizing);
    assert_eq!(ResizeSurfaceState::default(), ResizeSurfaceState::Idle);
}

#[test]
fn xdg_resize_ends_after_ack_and_commit() {
    let d = data(edges::BOTTOM_RIGHT);
    let mut state = ResizeState::Resizing(d);
    state.release(true, 7);
    assert_eq!(state, ResizeState::WaitingForFinalAck(d, 7));
    state.ack_configure(7, true);
    assert_eq!(state, ResizeState::WaitingForCommit(d));
    assert_eq!(state.commit(Point { x: 1, y: 1 }, Size { w: 10, h: 10 }), None);
    assert_eq!(state, ResizeState::NotResizing);
}

#[test]
fn wl_shell_resize_waits_for_commit_only() {
    let d = data(edges::RIGHT);
    let mut state = ResizeState::Resizing(d);
    state.release(false, 99);
    assert_eq!(state, ResizeState::WaitingForCommit(d));
}

#[test]
fn stale_or_unrelated_acks_change_nothing() {
    let d = data(edges::TOP);
    let mut state = ResizeState::WaitingForFinalAck(d, 10);
    state.ack_configure(9, true);
    assert_eq!(state, ResizeState::WaitingForFinalAck(d, 10));
    state.ack_configure(11, false);
    assert_eq!(state, ResizeState::WaitingForFinalAck(d, 10));
    let mut resizing = ResizeState::Resizing(d);
    resizing.ack_configure(11, true);
    assert_eq!(resizing, ResizeState::Resizing(d));
    let mut idle = ResizeState::NotResizing;
    idle.ack_configure(11, true);
    assert_eq!(idle, ResizeState::NotResizing);
}

#[test]
fn ack_after_serial_wrap_around_counts_as_later() {
    let d = data(edges::TOP);
    let mut state = ResizeState::WaitingForFinalAck(d, u32::MAX - 1);
    state.ack_configure(3, true);
    assert_eq!(state, ResizeState::WaitingForCommit(d));
    let mut state = ResizeState::WaitingForFinalAck(d, 3);
    state.ack_configure(u32::MAX - 1, true);
    assert_eq!(state, ResizeState::WaitingForFinalAck(d, 3));
}

#[test]
fn commit_moves_windows_resized_from_top_or_left() {
    let current = Point { x: 5, y: 6 };
    let mut left = ResizeState::Resizing(data(edges::LEFT));
    assert_eq!(left.commit(current, Size { w: 250, h: 10 }), Some(Point { x: 150, y: 6 }));
    assert_eq!(left, ResizeState::Resizing(data(edges::LEFT)));
    let mut top = ResizeState::WaitingForFinalAck(data(edges::TOP), 3);
    assert_eq!(top.commit(current, Size { w: 10, h: 450 }), Some(Point { x: 5, y: 150 }));
    let mut both = ResizeState::WaitingForCommit(data(edges::TOP_LEFT));
    assert_eq!(both.commit(current, Size { w: 300, h: 400 }), Some(Point { x: 100, y: 200 }));
    let mut right = ResizeState::Resizing(data(edges::BOTTOM_RIGHT));
    assert_eq!(right.commit(current, Size { w: 1, h: 1 }), None);
    let mut idle = ResizeState::NotResizing;
    assert_eq!(idle.commit(current, Size { w: 1, h: 1 }), None);
}

#[test]
fn location_after_follows_dragged_edges() {
    let d = data(edges::TOP_RIGHT);
    assert_eq!(d.location_after(Point { x: 9, y: 9 }, Size { w: 1, h: 300 }), Some(Point { x: 9, y: 300 }));
    let d = data(edges::BOTTOM_LEFT);
    assert_eq!(d.location_after(Point { x: 9, y: 9 }, Size { w: 100, h: 1 }), Some(Point { x: 300, y: 9 }));
}

#[test]
fn resize_surface_state_goes_back_to_idle_after_last_commit() {
    let e = ResizeEdge::from_bits(edges::BOTTOM_LEFT).unwrap();
    let mut state = ResizeSurfaceState::Idle;
    let grab = ResizeSurfaceGrab::start(SurfaceKind::Xdg(1), e, rect(0, 0, 50, 60), &mut state);
    assert_eq!(state, ResizeSurfaceState::Resizing { edges: e, initial_rect: rect(0, 0, 50, 60) });
    assert_eq!(grab.last_window_size, Size { w: 50, h: 60 });
    assert_eq!(state.commit(), Some((e, rect(0, 0, 50, 60))));
    assert_eq!(state, ResizeSurfaceState::Resizing { edges: e, initial_rect: rect(0, 0, 50, 60) });
    grab.release(&mut state);
    assert_eq!(state, ResizeSurfaceState::WaitingForLastCommit { edges: e, initial_rect: rect(0, 0, 50, 60) });
    assert_eq!(state.commit(), Some((e, rect(0, 0, 50, 60))));
    assert_eq!(state, ResizeSurfaceState::Idle);
    assert_eq!(state.commit(), None);
}

#[test]
fn motion_follows_edges_and_clamps() {
    let e = ResizeEdge::from_bits(edges::TOP_LEFT).unwrap();
    let mut state = ResizeSurfaceState::Idle;
    let mut grab = ResizeSurfaceGrab::start(SurfaceKind::Xdg(1), e, rect(0, 0, 100, 100), &mut state);
    let none = Size { w: 0, h: 0 };
    let size = grab.motion(true, Size { w: 120, h: 130 }, Size { w: 80, h: 70 }, none, none).unwrap();
    assert_eq!(size, Size { w: 80, h: 70 });
    assert_eq!(grab.last_window_size, Size { w: 80, h: 70 });
    let size = grab.motion(true, Size { w: 300, h: 300 }, Size { w: -100, h: -5 }, none, none).unwrap();
    assert_eq!(size, Size { w: 1, h: 1 });
    let size = grab.motion(true, Size { w: 0, h: 0 }, Size { w: 500, h: 500 }, Size { w: 10, h: 10 }, Size { w: 200, h: 0 }).unwrap();
    assert_eq!(size, Size { w: 200, h: 500 });

    let right = ResizeEdge::from_bits(edges::RIGHT).unwrap();
    let mut grab = ResizeSurfaceGrab::start(SurfaceKind::Wl(2), right, rect(0, 0, 100, 100), &mut state);
    let size = grab.motion(true, Size { w: 150, h: 150 }, Size { w: 50, h: 50 }, Size { w: 120, h: 0 }, none).unwrap();
    assert_eq!(size, Size { w: 150, h: 100 });
    let size = grab.motion(true, Size { w: 110, h: 150 }, Size { w: 50, h: 50 }, Size { w: 120, h: 0 }, none).unwrap();
    assert_eq!(size, Size { w: 120, h: 100 });
}

#[test]
fn max_size_wins_over_min_size() {
    let e = ResizeEdge::from_bits(edges::BOTTOM_RIGHT).unwrap();
    let mut state = ResizeSurfaceState::Idle;
    let mut grab = ResizeSurfaceGrab::start(SurfaceKind::Xdg(1), e, rect(0, 0, 100, 100), &mut state);
    let size = grab.motion(true, Size { w: 50, h: 50 }, Size { w: 0, h: 0 }, Size { w: 80, h: 80 }, Size { w: 60, h: 60 }).unwrap();
    assert_eq!(size, Size { w: 60, h: 60 });
}

#[test]
fn resize_grab_of_a_dead_toplevel_ends() {
    let e = ResizeEdge::from_bits(edges::RIGHT).unwrap();
    let mut state = ResizeSurfaceState::Idle;
    let mut grab = ResizeSurfaceGrab::start(SurfaceKind::Xdg(1), e, rect(0, 0, 100, 100), &mut state);
    let none = Size { w: 0, h: 0 };
    assert_eq!(grab.motion(false, Size { w: 150, h: 100 }, Size { w: 50, h: 100 }, none, none), None);
    assert_eq!(grab.last_window_size, Size { w: 100, h: 100 });
    assert_eq!(
        grab.motion(true, Size { w: 150, h: 100 }, Size { w: 50, h: 100 }, none, none),
        Some(Size { w: 150, h: 100 })
    );
    assert_eq!(grab.last_window_size, Size { w: 150, h: 100 });
}

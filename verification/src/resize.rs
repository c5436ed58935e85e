//! Interactive resizing: the state a resized surface goes through, the grab
//! that follows the pointer, and where the window ends up once the client
//! commits its new size.

use vstd::prelude::*;
use crate::edges::{self, ResizeEdge};
use crate::geometry::{Point, Size, Rectangle, min2, max2, fits_i32};
use crate::serial::{serial_at_least, serial_not_before};
use crate::window_map::SurfaceKind;

verus! {

/// Information about the resize operation.
#[derive(Clone, Copy, PartialEq, Eq, Structural, Debug)]
pub struct ResizeData {
    /// The edges the surface is being resized with.
    pub edges: ResizeEdge,
    /// The initial window location.
    pub initial_window_location: Point,
    /// The initial window size (geometry width and height).
    pub initial_window_size: Size,
}

/// State of the resize operation.
#[derive(Clone, Copy, PartialEq, Eq, Structural, Debug)]
pub enum ResizeState {
    /// The surface is not being resized.
    NotResizing,
    /// The surface is currently being resized.
    Resizing(ResizeData),
    /// The resize has finished, and the surface needs to ack the final
    /// configure, sent with the given serial.
    WaitingForFinalAck(ResizeData, u32),
    /// The resize has finished, and the surface needs to commit its final state.
    WaitingForCommit(ResizeData),
}

/// Where a window resized from the top or the left must move so that its
/// opposite edges stay in place, or `None` when neither edge is dragged.
/// The new coordinate is the initial one shifted by how much the window shrank.
pub open spec fn resized_location(data: ResizeData, current: Point, new_size: Size) -> Option<
    Point,
> {
    if data.edges.spec_intersects(edges::TOP_LEFT) {
        let x = if data.edges.spec_intersects(edges::LEFT) {
            (data.initial_window_location.x + (data.initial_window_size.w - new_size.w)) as i32
        } else {
            current.x
        };
        let y = if data.edges.spec_intersects(edges::TOP) {
            (data.initial_window_location.y + (data.initial_window_size.h - new_size.h)) as i32
        } else {
            current.y
        };
        Some(Point { x, y })
    } else {
        None
    }
}

/// Whether `resized_location` can be computed without leaving `i32`.
pub open spec fn resized_location_fits(data: ResizeData, new_size: Size) -> bool {
    &&& fits_i32(data.initial_window_size.w - new_size.w)
    &&& fits_i32(data.initial_window_location.x + (data.initial_window_size.w - new_size.w))
    &&& fits_i32(data.initial_window_size.h - new_size.h)
    &&& fits_i32(data.initial_window_location.y + (data.initial_window_size.h - new_size.h))
}

impl ResizeData {
    /// The location a window must take after committing `new_size`, see
    /// `resized_location`.
    pub fn location_after(self, current: Point, new_size: Size) -> (r: Option<Point>)
        requires
            self.edges.spec_intersects(edges::TOP_LEFT) ==> resized_location_fits(self, new_size),
        ensures
            r == resized_location(self, current, new_size),
    {
        if self.edges.intersects(edges::TOP_LEFT) {
            let mut location = current;
            if self.edges.intersects(edges::LEFT) {
                location.x = self.initial_window_location.x + (self.initial_window_size.w
                    - new_size.w);
            }
            if self.edges.intersects(edges::TOP) {
                location.y = self.initial_window_location.y + (self.initial_window_size.h
                    - new_size.h);
            }
            Some(location)
        } else {
            None
        }
    }
}

impl ResizeState {
    /// The resize data of any state but `NotResizing`.
    pub open spec fn data(self) -> Option<ResizeData> {
        match self {
            ResizeState::NotResizing => None,
            ResizeState::Resizing(d) => Some(d),
            ResizeState::WaitingForFinalAck(d, _) => Some(d),
            ResizeState::WaitingForCommit(d) => Some(d),
        }
    }

    /// The state once the pointer button that drove the resize is released:
    /// an xdg toplevel waits for the client to ack the final configure, sent
    /// with `serial`; other surfaces wait for their next commit.
    pub fn release(&mut self, is_xdg: bool, serial: u32)
        requires
            *old(self) is Resizing,
        ensures
            old(self).data() matches Some(d) && *final(self) == (if is_xdg {
                ResizeState::WaitingForFinalAck(d, serial)
            } else {
                ResizeState::WaitingForCommit(d)
            }),
    {
        match *self {
            ResizeState::Resizing(d) => {
                if is_xdg {
                    *self = ResizeState::WaitingForFinalAck(d, serial);
                } else {
                    *self = ResizeState::WaitingForCommit(d);
                }
            },
            _ => {},
        }
    }

    /// The spec of `ack_configure`.
    pub open spec fn spec_ack_configure(self, configure_serial: u32, still_resizing: bool) -> Self {
        match self {
            ResizeState::WaitingForFinalAck(d, s) => if serial_not_before(configure_serial, s)
                && still_resizing {
                ResizeState::WaitingForCommit(d)
            } else {
                self
            },
            _ => self,
        }
    }

    /// A client acked a configure with `configure_serial`. When the surface
    /// waits for the ack of its final resize configure, and this ack is not
    /// older than that configure while the surface's current state still
    /// shows it resizing, it now waits for its final commit. Otherwise the
    /// state is unchanged.
    pub fn ack_configure(&mut self, configure_serial: u32, still_resizing: bool)
        ensures
            *final(self) == old(self).spec_ack_configure(configure_serial, still_resizing),
    {
        match *self {
            ResizeState::WaitingForFinalAck(d, s) => {
                if serial_at_least(configure_serial, s) && still_resizing {
                    *self = ResizeState::WaitingForCommit(d);
                }
            },
            _ => {},
        }
    }

    /// The spec of `commit`'s new state.
    pub open spec fn spec_after_commit(self) -> Self {
        match self {
            ResizeState::WaitingForCommit(_) => ResizeState::NotResizing,
            _ => self,
        }
    }

    /// The surface committed while its window is at `current` with a geometry
    /// of `new_size`. While a resize is under way the window may have to
    /// move (see `resized_location`); a resize waiting for this commit ends
    /// here.
    pub fn commit(&mut self, current: Point, new_size: Size) -> (r: Option<Point>)
        requires
            match old(self).data() {
                Some(d) => d.edges.spec_intersects(edges::TOP_LEFT) ==> resized_location_fits(
                    d,
                    new_size,
                ),
                None => true,
            },
        ensures
            r == (match old(self).data() {
                None => None,
                Some(d) => resized_location(d, current, new_size),
            }),
            *final(self) == old(self).spec_after_commit(),
    {
        let new_location = match *self {
            ResizeState::Resizing(d) => d.location_after(current, new_size),
            ResizeState::WaitingForFinalAck(d, _) => d.location_after(current, new_size),
            ResizeState::WaitingForCommit(d) => d.location_after(current, new_size),
            ResizeState::NotResizing => None,
        };
        if let ResizeState::WaitingForCommit(_) = *self {
            *self = ResizeState::NotResizing;
        }
        new_location
    }
}

impl Default for ResizeState {
    fn default() -> (r: Self)
        ensures
            r == ResizeState::NotResizing,
    {
        ResizeState::NotResizing
    }
}

/// State of the resize operation, as kept for each surface.
#[derive(Clone, Copy, PartialEq, Eq, Structural, Debug)]
pub enum ResizeSurfaceState {
    Idle,
    Resizing {
        edges: ResizeEdge,
        /// The initial window size and location.
        initial_rect: Rectangle,
    },
    /// Resize is done, we are now waiting for last commit, to do the final move
    WaitingForLastCommit {
        edges: ResizeEdge,
        /// The initial window size and location.
        initial_rect: Rectangle,
    },
}

impl Default for ResizeSurfaceState {
    fn default() -> (r: Self)
        ensures
            r == ResizeSurfaceState::Idle,
    {
        ResizeSurfaceState::Idle
    }
}

impl ResizeSurfaceState {
    /// The spec of `commit`'s result.
    pub open spec fn spec_commit_result(self) -> Option<(ResizeEdge, Rectangle)> {
        match self {
            ResizeSurfaceState::Idle => None,
            ResizeSurfaceState::Resizing { edges, initial_rect } => Some((edges, initial_rect)),
            ResizeSurfaceState::WaitingForLastCommit { edges, initial_rect } => Some(
                (edges, initial_rect),
            ),
        }
    }

    /// The state after a commit: a finished resize goes back to idle.
    pub open spec fn spec_after_commit(self) -> Self {
        match self {
            ResizeSurfaceState::WaitingForLastCommit { .. } => ResizeSurfaceState::Idle,
            _ => self,
        }
    }

    /// On a commit, the edges and initial rectangle of a resize in progress
    /// or just finished; a finished resize goes back to idle.
    pub fn commit(&mut self) -> (r: Option<(ResizeEdge, Rectangle)>)
        ensures
            r == old(self).spec_commit_result(),
            *final(self) == old(self).spec_after_commit(),
    {
        match *self {
            ResizeSurfaceState::Resizing { edges, initial_rect } => Some((edges, initial_rect)),
            ResizeSurfaceState::WaitingForLastCommit { edges, initial_rect } => {
                *self = ResizeSurfaceState::Idle;
                Some((edges, initial_rect))
            },
            ResizeSurfaceState::Idle => None,
        }
    }
}

/// The size a window may take given its `min_size` and `max_size`: a
/// minimum of zero counts as one, a maximum of zero as unbounded, and the
/// maximum wins over the minimum.
pub open spec fn clamp_dimension(requested: i32, min: i32, max: i32) -> int {
    let lo = max2(min as int, 1);
    let hi = if max == 0 { i32::MAX as int } else { max as int };
    min2(max2(requested as int, lo), hi)
}

/// The pointer grab of an interactive resize.
#[derive(Clone, Copy, PartialEq, Eq, Structural, Debug)]
pub struct ResizeSurfaceGrab {
    pub window: SurfaceKind,
    pub edges: ResizeEdge,
    /// The initial window location and size.
    pub initial_rect: Rectangle,
    pub last_window_size: Size,
}

/// The requested size along one axis: the initial size when the dragged
/// edges do not touch this axis, else the size grown by the pointer delta,
/// or shrunk by it when the low edge (left or top) is dragged.
pub open spec fn dragged_dimension(
    edge_set: ResizeEdge,
    low: u32,
    high: u32,
    initial: i32,
    grown: i32,
    shrunk: i32,
) -> i32 {
    if edge_set.spec_intersects(low | high) {
        if edge_set.spec_intersects(low) {
            shrunk
        } else {
            grown
        }
    } else {
        initial
    }
}

impl ResizeSurfaceGrab {
    /// Start resizing `window` along `edges`; the surface's resize state
    /// records the edges and the window's initial rectangle.
    pub fn start(
        window: SurfaceKind,
        edges: ResizeEdge,
        initial_window_rect: Rectangle,
        state: &mut ResizeSurfaceState,
    ) -> (r: Self)
        ensures
            *final(state) == (ResizeSurfaceState::Resizing {
                edges,
                initial_rect: initial_window_rect,
            }),
            r == (ResizeSurfaceGrab {
                window,
                edges,
                initial_rect: initial_window_rect,
                last_window_size: initial_window_rect.size,
            }),
    {
        let initial_rect = initial_window_rect;
        *state = ResizeSurfaceState::Resizing { edges, initial_rect };
        ResizeSurfaceGrab { window, edges, initial_rect, last_window_size: initial_rect.size }
    }

    /// The window follows the pointer: its new size follows the dragged
    /// edges, is clamped between `min_size` and `max_size`, and becomes the
    /// last window size.
    fn follow_pointer(&mut self, grown: Size, shrunk: Size, min_size: Size, max_size: Size) -> (r: Size)
        ensures
            r.w == clamp_dimension(
                dragged_dimension(
                    old(self).edges,
                    edges::LEFT,
                    edges::RIGHT,
                    old(self).initial_rect.size.w,
                    grown.w,
                    shrunk.w,
                ),
                min_size.w,
                max_size.w,
            ),
            r.h == clamp_dimension(
                dragged_dimension(
                    old(self).edges,
                    edges::TOP,
                    edges::BOTTOM,
                    old(self).initial_rect.size.h,
                    grown.h,
                    shrunk.h,
                ),
                min_size.h,
                max_size.h,
            ),
            *final(self) == (ResizeSurfaceGrab { last_window_size: r, ..*old(self) }),
    {
        let mut new_window_width = self.initial_rect.size.w;
        let mut new_window_height = self.initial_rect.size.h;
        if self.edges.intersects(edges::LEFT | edges::RIGHT) {
            if self.edges.intersects(edges::LEFT) {
                new_window_width = shrunk.w;
            } else {
                new_window_width = grown.w;
            }
        }
        if self.edges.intersects(edges::TOP | edges::BOTTOM) {
            if self.edges.intersects(edges::TOP) {
                new_window_height = shrunk.h;
            } else {
                new_window_height = grown.h;
            }
        }
        let min_width = if min_size.w >= 1 { min_size.w } else { 1 };
        let min_height = if min_size.h >= 1 { min_size.h } else { 1 };
        let max_width = if max_size.w == 0 { i32::MAX } else { max_size.w };
        let max_height = if max_size.h == 0 { i32::MAX } else { max_size.h };
        let w0 = if new_window_width >= min_width { new_window_width } else { min_width };
        let w = if w0 <= max_width { w0 } else { max_width };
        let h0 = if new_window_height >= min_height { new_window_height } else { min_height };
        let h = if h0 <= max_height { h0 } else { max_height };
        self.last_window_size = Size { w, h };
        self.last_window_size
    }

    /// The pointer moved while the grab holds it. A window whose toplevel
    /// is gone cannot be resized: the grab ends (`None`) and keeps its last
    /// size. Otherwise the window follows the pointer: `grown` is the
    /// initial size plus the pointer delta on each axis and `shrunk` the
    /// initial size minus it; the new size follows the dragged edges, is
    /// clamped between `min_size` and `max_size`, and becomes the last size.
    pub fn motion(
        &mut self,
        toplevel_alive: bool,
        grown: Size,
        shrunk: Size,
        min_size: Size,
        max_size: Size,
    ) -> (r: Option<Size>)
        ensures
            !toplevel_alive ==> r is None && *final(self) == *old(self),
            toplevel_alive ==> (r matches Some(size) && size.w == clamp_dimension(
                dragged_dimension(
                    old(self).edges,
                    edges::LEFT,
                    edges::RIGHT,
                    old(self).initial_rect.size.w,
                    grown.w,
                    shrunk.w,
                ),
                min_size.w,
                max_size.w,
            ) && size.h == clamp_dimension(
                dragged_dimension(
                    old(self).edges,
                    edges::TOP,
                    edges::BOTTOM,
                    old(self).initial_rect.size.h,
                    grown.h,
                    shrunk.h,
                ),
                min_size.h,
                max_size.h,
            ) && *final(self) == (ResizeSurfaceGrab { last_window_size: size, ..*old(self) })),
    {
        if !toplevel_alive {
            return None;
        }
        Some(self.follow_pointer(grown, shrunk, min_size, max_size))
    }

    /// The pointer button was released on an xdg toplevel: its resize now
    /// waits for the last commit, to do the final move.
    pub fn release(&self, state: &mut ResizeSurfaceState)
        ensures
            *final(state) == (ResizeSurfaceState::WaitingForLastCommit {
                edges: self.edges,
                initial_rect: self.initial_rect,
            }),
    {
        *state = ResizeSurfaceState::WaitingForLastCommit {
            edges: self.edges,
            initial_rect: self.initial_rect,
        };
    }
}

/// The pointer grab of an interactive move.
#[derive(Clone, Copy, PartialEq, Eq, Structural, Debug)]
pub struct MoveSurfaceGrab {
    pub window: SurfaceKind,
    pub initial_window_location: Point,
}

/// A resize of an xdg toplevel ends once the client has acked the final
/// configure and committed: released with `serial`, acked with a serial
/// not before it while the surface still shows it resizing, then
/// committed, the surface is no longer resizing.
pub proof fn lemma_xdg_resize_ends(d: ResizeData, serial: u32, ack_serial: u32)
    requires
        serial_not_before(ack_serial, serial),
    ensures
        ResizeState::WaitingForFinalAck(d, serial).spec_ack_configure(ack_serial, true)
            == ResizeState::WaitingForCommit(d),
        ResizeState::WaitingForCommit(d).spec_after_commit() == ResizeState::NotResizing,
{
}

/// An ack older than the final configure, or one sent once the surface no
/// longer shows it resizing, leaves the resize waiting for its final ack.
pub proof fn lemma_stale_ack_keeps_waiting(
    d: ResizeData,
    serial: u32,
    ack_serial: u32,
    still_resizing: bool,
)
    requires
        !serial_not_before(ack_serial, serial) || !still_resizing,
    ensures
        ResizeState::WaitingForFinalAck(d, serial).spec_ack_configure(ack_serial, still_resizing)
            == ResizeState::WaitingForFinalAck(d, serial),
{
}

/// Commits during a resize, or while the final ack is awaited, do not end
/// it; and acks change nothing outside the wait for the final ack.
pub proof fn lemma_resize_survives_commits(d: ResizeData, serial: u32, ack_serial: u32, still_resizing: bool)
    ensures
        ResizeState::Resizing(d).spec_after_commit() == ResizeState::Resizing(d),
        ResizeState::WaitingForFinalAck(d, serial).spec_after_commit()
            == ResizeState::WaitingForFinalAck(d, serial),
        ResizeState::NotResizing.spec_after_commit() == ResizeState::NotResizing,
        ResizeState::Resizing(d).spec_ack_configure(ack_serial, still_resizing)
            == ResizeState::Resizing(d),
        ResizeState::WaitingForCommit(d).spec_ack_configure(ack_serial, still_resizing)
            == ResizeState::WaitingForCommit(d),
        ResizeState::NotResizing.spec_ack_configure(ack_serial, still_resizing)
            == ResizeState::NotResizing,
{
}

/// A window resized from the left or the top moves so that its right or
/// bottom edge stays where it was when the resize started; along an axis
/// whose low edge is not dragged it keeps its current coordinate.
pub proof fn lemma_resize_keeps_opposite_edges(d: ResizeData, current: Point, new_size: Size)
    requires
        d.edges.spec_intersects(edges::TOP_LEFT),
        resized_location_fits(d, new_size),
    ensures
        resized_location(d, current, new_size) matches Some(p) && {
            &&& d.edges.spec_intersects(edges::LEFT) ==> p.x + new_size.w
                == d.initial_window_location.x + d.initial_window_size.w
            &&& !d.edges.spec_intersects(edges::LEFT) ==> p.x == current.x
            &&& d.edges.spec_intersects(edges::TOP) ==> p.y + new_size.h
                == d.initial_window_location.y + d.initial_window_size.h
            &&& !d.edges.spec_intersects(edges::TOP) ==> p.y == current.y
        },
{
}

/// A window not resized from the left or the top never moves on a commit.
pub proof fn lemma_resize_from_bottom_right_stays(d: ResizeData, current: Point, new_size: Size)
    requires
        !d.edges.spec_intersects(edges::TOP_LEFT),
    ensures
        resized_location(d, current, new_size) is None,
{
}

/// The size a resize gives a window respects the client's bounds: at least
/// its minimum (and at least one pixel), at most its maximum when it has
/// one that is not below the minimum.
pub proof fn lemma_clamped_size_within_bounds(requested: i32, min: i32, max: i32)
    ensures
        max == 0 || max >= max2(min as int, 1) ==> max2(min as int, 1) <= clamp_dimension(
            requested,
            min,
            max,
        ),
        max != 0 ==> clamp_dimension(requested, min, max) <= max,
        max2(min as int, 1) <= requested && (max == 0 || requested <= max) ==> clamp_dimension(
            requested,
            min,
            max,
        ) == requested,
{
}

/// A resize started by a grab ends, for an xdg toplevel, on the first
/// commit after the button is released: that commit still reports the
/// edges and initial rectangle, then the surface is idle again. Commits
/// while the button is held report them and leave the resize running.
pub proof fn lemma_resize_surface_ends(edges: ResizeEdge, initial_rect: Rectangle)
    ensures
        (ResizeSurfaceState::Resizing { edges, initial_rect }).spec_commit_result() == Some(
            (edges, initial_rect),
        ),
        (ResizeSurfaceState::Resizing { edges, initial_rect }).spec_after_commit() == (
        ResizeSurfaceState::Resizing { edges, initial_rect }),
        (ResizeSurfaceState::WaitingForLastCommit { edges, initial_rect }).spec_commit_result()
            == Some((edges, initial_rect)),
        (ResizeSurfaceState::WaitingForLastCommit { edges, initial_rect }).spec_after_commit()
            == ResizeSurfaceState::Idle,
        ResizeSurfaceState::Idle.spec_commit_result() is None,
        ResizeSurfaceState::Idle.spec_after_commit() == ResizeSurfaceState::Idle,
{
}

/// The edges dragged decide which way each axis follows the pointer: the
/// left (top) edge shrinks the width (height) as the pointer moves right
/// (down), the right (bottom) edge alone grows it, and an axis neither of
/// whose edges is dragged keeps its initial size. The edge bits are those
/// of the shell protocols: top 1, bottom 2, left 4, right 8.
pub proof fn lemma_dragged_edges_follow_pointer(e: ResizeEdge, initial: i32, grown: i32, shrunk: i32)
    ensures
        e.bits & 4 != 0 ==> dragged_dimension(e, edges::LEFT, edges::RIGHT, initial, grown, shrunk)
            == shrunk,
        e.bits & 4 == 0 && e.bits & 8 != 0 ==> dragged_dimension(
            e,
            edges::LEFT,
            edges::RIGHT,
            initial,
            grown,
            shrunk,
        ) == grown,
        e.bits & 12 == 0 ==> dragged_dimension(e, edges::LEFT, edges::RIGHT, initial, grown, shrunk)
            == initial,
        e.bits & 1 != 0 ==> dragged_dimension(e, edges::TOP, edges::BOTTOM, initial, grown, shrunk)
            == shrunk,
        e.bits & 1 == 0 && e.bits & 2 != 0 ==> dragged_dimension(
            e,
            edges::TOP,
            edges::BOTTOM,
            initial,
            grown,
            shrunk,
        ) == grown,
        e.bits & 3 == 0 ==> dragged_dimension(e, edges::TOP, edges::BOTTOM, initial, grown, shrunk)
            == initial,
{
    let b = e.bits;
    assert(b & 4 != 0 ==> b & (4u32 | 8u32) != 0) by (bit_vector);
    assert(b & 8 != 0 ==> b & (4u32 | 8u32) != 0) by (bit_vector);
    assert(b & 12 == 0 ==> b & (4u32 | 8u32) == 0) by (bit_vector);
    assert(b & 1 != 0 ==> b & (1u32 | 2u32) != 0) by (bit_vector);
    assert(b & 2 != 0 ==> b & (1u32 | 2u32) != 0) by (bit_vector);
    assert(b & 3 == 0 ==> b & (1u32 | 2u32) == 0) by (bit_vector);
}

} // verus!

//! Decisions of the compositor on shell requests: where new windows go,
//! whether a move or resize request may start a pointer grab, and which
//! output a fullscreen or maximized window covers.

use vstd::prelude::*;
use rand::distributions::{Distribution, Uniform};
use crate::edges::ResizeEdge;
use crate::geometry::{Point, Size, Rectangle};
use crate::resize::{MoveSurfaceGrab, ResizeData, ResizeState, ResizeSurfaceGrab};
use crate::surface_tree::{SurfaceTree, bbox_of};
use crate::window_map::{
    PopupKind, Popup, SurfaceKind, Window, WindowMap, toplevel_index, surface_index,
    is_first_surface, is_first_toplevel,
};

verus! {

/// A value drawn uniformly from `low..high` by `rand`'s `Uniform`
/// distribution with the thread-local generator. `Uniform::new` panics
/// unless `low < high`; the value drawn lies in the half-open range. Which
/// value comes is chance and is not stated, nor that seeding the
/// thread-local generator from the operating system can fail and panic.
#[verifier::external_body]
fn sample_range(low: i32, high: i32) -> (r: i32)
    requires
        low < high,
    ensures
        low <= r < high,
{
    Uniform::new(low, high).sample(&mut rand::thread_rng())
}

/// The area new windows are placed in: the primary output, or a
/// [0;800]x[0;800] square when there is no output.
pub fn placement_area(primary_output: Option<Rectangle>) -> (r: Rectangle)
    ensures
        r == primary_output.unwrap_or(
            Rectangle { loc: Point { x: 0, y: 0 }, size: Size { w: 800, h: 800 } },
        ),
{
    match primary_output {
        Some(g) => g,
        None => Rectangle::from_loc_and_size(Point { x: 0, y: 0 }, Size { w: 800, h: 800 }),
    }
}

/// The start of a pointer grab, as far as a move or resize request needs it.
pub struct GrabQuery<T> {
    /// The pointer holds a grab started by the request's serial.
    pub has_grab: bool,
    /// The data the grab was started with.
    pub start_data: Option<T>,
    /// Whether the focus of the grab start belongs to the client of the
    /// requesting surface; `None` when the grab started without a focus.
    pub focus_same_client: Option<bool>,
}

/// The grab start data of a request, when the seat has a pointer holding a
/// grab of the request's serial whose focus belongs to the requesting client.
pub fn check_grab<T>(pointer: Option<GrabQuery<T>>) -> (r: Option<T>)
    ensures
        r == (match pointer {
            None => None,
            Some(q) => if q.has_grab && q.focus_same_client == Some(true) {
                q.start_data
            } else {
                None
            },
        }),
{
    match pointer {
        None => None,
        Some(q) => {
            if !q.has_grab {
                return None;
            }
            match q.start_data {
                None => None,
                Some(start_data) => match q.focus_same_client {
                    Some(true) => Some(start_data),
                    _ => None,
                },
            }
        },
    }
}

/// The output a fullscreen window covers: the requested output if there is
/// one (`None` when it is not found), else the output under the window,
/// else the primary output.
pub fn fullscreen_output_geometry(
    requested: Option<Option<Rectangle>>,
    window_output: Option<Rectangle>,
    primary_output: Option<Rectangle>,
) -> (r: Option<Rectangle>)
    ensures
        r == (match requested {
            Some(found) => found,
            None => if window_output is Some {
                window_output
            } else {
                primary_output
            },
        }),
{
    if let Some(found) = requested {
        return found;
    }
    if let Some(result) = window_output {
        return Some(result);
    }
    primary_output
}

/// The handles of the shell globals the compositor serves.
#[derive(Clone, Copy, PartialEq, Eq, Structural, Debug)]
pub struct ShellHandles;

/// The compositor's windows.
pub struct Compositor {
    pub window_map: WindowMap,
}

impl Compositor {
    /// A compositor without windows.
    pub fn init() -> (r: Compositor)
        ensures
            r.window_map.windows_view() == Seq::<Window>::empty(),
            r.window_map.popups_view() == Seq::<Popup>::empty(),
    {
        Compositor { window_map: WindowMap::default() }
    }

    /// Maps a new toplevel at a random location of `area`, in its left two
    /// thirds: x is drawn from `area.loc.x..max_x` and y from
    /// `area.loc.y..max_y`, where `max_x` and `max_y` are the two-thirds
    /// bounds computed by the caller.
    fn place_toplevel(
        &mut self,
        toplevel: SurfaceKind,
        area: Rectangle,
        max_x: i32,
        max_y: i32,
        tree: &SurfaceTree,
    ) -> (r: Point)
        requires
            area.loc.x < max_x,
            area.loc.y < max_y,
            forall|p: Point|
                area.loc.x <= p.x < max_x && area.loc.y <= p.y < max_y ==> #[trigger] bbox_of(
                    p,
                    *tree,
                ) is Some,
        ensures
            area.loc.x <= r.x < max_x,
            area.loc.y <= r.y < max_y,
            final(self).window_map.windows_view() == seq![
                Window { location: r, bbox: bbox_of(r, *tree).unwrap(), toplevel },
            ] + old(self).window_map.windows_view(),
            final(self).window_map.popups_view() == old(self).window_map.popups_view(),
    {
        let x = sample_range(area.loc.x, max_x);
        let y = sample_range(area.loc.y, max_y);
        let location = Point { x, y };
        assert(bbox_of(location, *tree) is Some);
        self.window_map.insert(toplevel, location, tree);
        location
    }

    /// A new xdg toplevel: it is placed at a random location of `area` (see
    /// `place_toplevel`). Its initial configure is sent on its first commit.
    pub fn xdg_new_toplevel(
        &mut self,
        surface: u64,
        area: Rectangle,
        max_x: i32,
        max_y: i32,
        tree: &SurfaceTree,
    ) -> (r: Point)
        requires
            area.loc.x < max_x,
            area.loc.y < max_y,
            forall|p: Point|
                area.loc.x <= p.x < max_x && area.loc.y <= p.y < max_y ==> #[trigger] bbox_of(
                    p,
                    *tree,
                ) is Some,
        ensures
            area.loc.x <= r.x < max_x,
            area.loc.y <= r.y < max_y,
            final(self).window_map.windows_view() == seq![
                Window {
                    location: r,
                    bbox: bbox_of(r, *tree).unwrap(),
                    toplevel: SurfaceKind::Xdg(surface),
                },
            ] + old(self).window_map.windows_view(),
            final(self).window_map.popups_view() == old(self).window_map.popups_view(),
    {
        self.place_toplevel(SurfaceKind::Xdg(surface), area, max_x, max_y, tree)
    }

    /// A `wl_shell` surface became a toplevel: it is placed like a new xdg
    /// toplevel.
    pub fn set_toplevel(
        &mut self,
        surface: u64,
        area: Rectangle,
        max_x: i32,
        max_y: i32,
        tree: &SurfaceTree,
    ) -> (r: Point)
        requires
            area.loc.x < max_x,
            area.loc.y < max_y,
            forall|p: Point|
                area.loc.x <= p.x < max_x && area.loc.y <= p.y < max_y ==> #[trigger] bbox_of(
                    p,
                    *tree,
                ) is Some,
        ensures
            area.loc.x <= r.x < max_x,
            area.loc.y <= r.y < max_y,
            final(self).window_map.windows_view() == seq![
                Window {
                    location: r,
                    bbox: bbox_of(r, *tree).unwrap(),
                    toplevel: SurfaceKind::Wl(surface),
                },
            ] + old(self).window_map.windows_view(),
            final(self).window_map.popups_view() == old(self).window_map.popups_view(),
    {
        self.place_toplevel(SurfaceKind::Wl(surface), area, max_x, max_y, tree)
    }

    /// A new xdg popup. Its initial configure is sent on its first commit.
    pub fn xdg_new_popup(&mut self, surface: u64)
        ensures
            final(self).window_map.popups_view() == old(self).window_map.popups_view().push(
                Popup { popup: PopupKind::Xdg(surface) },
            ),
            final(self).window_map.windows_view() == old(self).window_map.windows_view(),
    {
        self.window_map.insert_popup(PopupKind::Xdg(surface));
    }

    /// A `wl_shell` surface asked to be fullscreen on the output with
    /// `geometry` (see `fullscreen_output_geometry`): it is mapped at the
    /// output's corner. Without such an output the request is ignored.
    pub fn set_fullscreen(&mut self, surface: u64, geometry: Option<Rectangle>, tree: &SurfaceTree)
        requires
            geometry matches Some(g) ==> bbox_of(g.loc, *tree) is Some,
        ensures
            final(self).window_map.windows_view() == match geometry {
                None => old(self).window_map.windows_view(),
                Some(g) => seq![
                    Window {
                        location: g.loc,
                        bbox: bbox_of(g.loc, *tree).unwrap(),
                        toplevel: SurfaceKind::Wl(surface),
                    },
                ] + old(self).window_map.windows_view(),
            },
            final(self).window_map.popups_view() == old(self).window_map.popups_view(),
    {
        if let Some(g) = geometry {
            self.window_map.insert(SurfaceKind::Wl(surface), g.loc, tree);
        }
    }

    /// An xdg toplevel asked to be fullscreen or maximized on the output
    /// with `geometry`. Without such an output the request is ignored and
    /// `None` returned; else the window of `surface`, if mapped, moves to
    /// the output's corner, and the output's size is returned for the
    /// configure.
    pub fn xdg_fill_output(
        &mut self,
        surface: u64,
        geometry: Option<Rectangle>,
        tree: &SurfaceTree,
    ) -> (r: Option<Size>)
        requires
            geometry matches Some(g) ==> bbox_of(g.loc, *tree) is Some,
        ensures
            r == (match geometry {
                None => None,
                Some(g) => Some(g.size),
            }),
            final(self).window_map.windows_view() == match (
                geometry,
                surface_index(old(self).window_map.windows_view(), surface),
            ) {
                (Some(g), Some(k)) => old(self).window_map.windows_view().update(
                    k,
                    Window {
                        location: g.loc,
                        bbox: bbox_of(g.loc, *tree).unwrap(),
                        toplevel: old(self).window_map.windows_view()[k].toplevel,
                    },
                ),
                _ => old(self).window_map.windows_view(),
            },
            final(self).window_map.popups_view() == old(self).window_map.popups_view(),
    {
        match geometry {
            None => None,
            Some(g) => {
                if let Some(kind) = self.window_map.find(surface) {
                    let ghost ws = self.window_map.windows_view();
                    let ghost k = surface_index(ws, surface).unwrap();
                    proof {
                        lemma_surface_index_is_toplevel_index(ws, surface, k);
                    }
                    self.window_map.set_location(kind, g.loc, tree);
                }
                Some(g.size)
            },
        }
    }

    /// A pointer-driven resize request of an xdg toplevel. It starts only
    /// when the pointer holds a grab of the request's serial whose focus
    /// belongs to the same client; then the surface's resize state records
    /// the edges and the window's location and geometry size, and the
    /// returned grab follows the pointer from that rectangle.
    pub fn xdg_resize(
        &self,
        toplevel: SurfaceKind,
        has_grab: bool,
        focus_same_client: Option<bool>,
        edges: ResizeEdge,
        client_geometry: Option<Rectangle>,
        resize_state: &mut ResizeState,
    ) -> (r: Option<ResizeSurfaceGrab>)
        requires
            has_grab && focus_same_client == Some(true) ==> toplevel_index(
                self.window_map.windows_view(),
                toplevel,
            ) is Some,
        ensures
            self.resize_started(
                toplevel,
                has_grab && focus_same_client == Some(true),
                edges,
                client_geometry,
                *old(resize_state),
                *final(resize_state),
                r,
            ),
    {
        if !has_grab {
            return None;
        }
        match focus_same_client {
            Some(true) => {},
            _ => return None,
        }
        self.start_resize(toplevel, edges, client_geometry, resize_state)
    }

    /// A pointer-driven resize request of a `wl_shell` surface. It starts
    /// when the pointer holds a grab of the request's serial with start
    /// data whose focus belongs to the same client (`start_same_client`;
    /// `None` when there is no start data), as for `xdg_resize`.
    pub fn shell_resize(
        &self,
        toplevel: SurfaceKind,
        has_grab: bool,
        start_same_client: Option<bool>,
        edges: ResizeEdge,
        client_geometry: Option<Rectangle>,
        resize_state: &mut ResizeState,
    ) -> (r: Option<ResizeSurfaceGrab>)
        requires
            has_grab && start_same_client == Some(true) ==> toplevel_index(
                self.window_map.windows_view(),
                toplevel,
            ) is Some,
        ensures
            self.resize_started(
                toplevel,
                has_grab && start_same_client == Some(true),
                edges,
                client_geometry,
                *old(resize_state),
                *final(resize_state),
                r,
            ),
    {
        if !has_grab {
            return None;
        }
        if start_same_client == Some(true) {
            self.start_resize(toplevel, edges, client_geometry, resize_state)
        } else {
            None
        }
    }

    /// The outcome of a resize request: when `allowed`, the resize state
    /// holds the window's location and geometry size and the grab starts
    /// from them; else nothing changes.
    pub open spec fn resize_started(
        &self,
        toplevel: SurfaceKind,
        allowed: bool,
        edges: ResizeEdge,
        client_geometry: Option<Rectangle>,
        before: ResizeState,
        after: ResizeState,
        r: Option<ResizeSurfaceGrab>,
    ) -> bool {
        if allowed {
            let w = self.window_map.windows_view()[toplevel_index(
                self.window_map.windows_view(),
                toplevel,
            ).unwrap()];
            let size = client_geometry.unwrap_or(w.bbox).size;
            &&& after == ResizeState::Resizing(
                ResizeData { edges, initial_window_location: w.location, initial_window_size: size },
            )
            &&& r == Some(
                ResizeSurfaceGrab {
                    window: toplevel,
                    edges,
                    initial_rect: Rectangle { loc: w.location, size },
                    last_window_size: size,
                },
            )
        } else {
            &&& after == before
            &&& r is None
        }
    }

    fn start_resize(
        &self,
        toplevel: SurfaceKind,
        edges: ResizeEdge,
        client_geometry: Option<Rectangle>,
        resize_state: &mut ResizeState,
    ) -> (r: Option<ResizeSurfaceGrab>)
        requires
            toplevel_index(self.window_map.windows_view(), toplevel) is Some,
        ensures
            self.resize_started(
                toplevel,
                true,
                edges,
                client_geometry,
                *old(resize_state),
                *final(resize_state),
                r,
            ),
    {
        let initial_window_location = self.window_map.location(toplevel).unwrap();
        let geometry = self.window_map.geometry(toplevel, client_geometry).unwrap();
        let initial_window_size = geometry.size;
        *resize_state = ResizeState::Resizing(
            ResizeData { edges, initial_window_location, initial_window_size },
        );
        Some(
            ResizeSurfaceGrab {
                window: toplevel,
                edges,
                initial_rect: Rectangle::from_loc_and_size(
                    initial_window_location,
                    initial_window_size,
                ),
                last_window_size: initial_window_size,
            },
        )
    }

    /// A pointer-driven move request of a `wl_shell` surface: with a grab of
    /// the request's serial whose start focus belongs to the same client,
    /// the returned grab moves the window from its current location.
    pub fn shell_move(
        &self,
        toplevel: SurfaceKind,
        has_grab: bool,
        start_same_client: Option<bool>,
    ) -> (r: Option<MoveSurfaceGrab>)
        requires
            has_grab && start_same_client == Some(true) ==> toplevel_index(
                self.window_map.windows_view(),
                toplevel,
            ) is Some,
        ensures
            r == (if has_grab && start_same_client == Some(true) {
                Some(
                    MoveSurfaceGrab {
                        window: toplevel,
                        initial_window_location: self.window_map.windows_view()[toplevel_index(
                            self.window_map.windows_view(),
                            toplevel,
                        ).unwrap()].location,
                    },
                )
            } else {
                None
            }),
    {
        if !has_grab {
            return None;
        }
        if start_same_client == Some(true) {
            let initial_window_location = self.window_map.location(toplevel).unwrap();
            Some(MoveSurfaceGrab { window: toplevel, initial_window_location })
        } else {
            None
        }
    }

    /// A pointer-driven move request of an xdg toplevel: with a grab of the
    /// request's serial whose focus belongs to the same client, the returned
    /// grab moves the window from its current location, or from
    /// `unmaximized_at` when the window was maximized and has just been
    /// unmaximized under the pointer.
    pub fn xdg_move(
        &self,
        toplevel: SurfaceKind,
        has_grab: bool,
        focus_same_client: Option<bool>,
        unmaximized_at: Option<Point>,
    ) -> (r: Option<MoveSurfaceGrab>)
        requires
            has_grab && focus_same_client == Some(true) ==> toplevel_index(
                self.window_map.windows_view(),
                toplevel,
            ) is Some,
        ensures
            r == (if has_grab && focus_same_client == Some(true) {
                Some(
                    MoveSurfaceGrab {
                        window: toplevel,
                        initial_window_location: match unmaximized_at {
                            Some(p) => p,
                            None => self.window_map.windows_view()[toplevel_index(
                                self.window_map.windows_view(),
                                toplevel,
                            ).unwrap()].location,
                        },
                    },
                )
            } else {
                None
            }),
    {
        if !has_grab {
            return None;
        }
        match focus_same_client {
            Some(true) => {},
            _ => return None,
        }
        let mut initial_window_location = self.window_map.location(toplevel).unwrap();
        if let Some(p) = unmaximized_at {
            initial_window_location = p;
        }
        Some(MoveSurfaceGrab { window: toplevel, initial_window_location })
    }
}

/// The topmost window with a surface is the topmost window showing its
/// toplevel.
pub proof fn lemma_surface_index_is_toplevel_index(ws: Seq<Window>, surface: u64, k: int)
    requires
        surface_index(ws, surface) == Some(k),
    ensures
        toplevel_index(ws, ws[k].toplevel) == Some(k),
{
    assert(is_first_surface(ws, surface, k));
    let t = ws[k].toplevel;
    assert(is_first_toplevel(ws, t, k));
    let j = choose|j: int| is_first_toplevel(ws, t, j);
    if j < k {
        assert(ws[j].toplevel.spec_surface() != surface);
    } else if k < j {
        assert(ws[k].toplevel != t);
    }
}

} // verus!

//! The stack of toplevel windows and the popups of the compositor.
//!
//! Windows are kept from the topmost (index 0) to the bottommost.

use vstd::prelude::*;
use crate::geometry::{Point, Rectangle, fits_i32};
use crate::surface_tree::{SurfaceTree, bbox_of};
use crate::resize::{ResizeState, resized_location, resized_location_fits};
use crate::edges;

verus! {

/// A toplevel surface, by the shell protocol that created it and the id of
/// its `wl_surface`.
#[derive(Clone, Copy, PartialEq, Eq, Structural, Debug)]
pub enum SurfaceKind {
    Xdg(u64),
    Wl(u64),
    X11(u64),
}

impl SurfaceKind {
    /// The id of the underlying `wl_surface`.
    pub open spec fn spec_surface(self) -> u64 {
        match self {
            SurfaceKind::Xdg(s) => s,
            SurfaceKind::Wl(s) => s,
            SurfaceKind::X11(s) => s,
        }
    }

    /// The id of the underlying `wl_surface`.
    pub fn get_surface(self) -> (r: u64)
        ensures
            r == self.spec_surface(),
    {
        match self {
            SurfaceKind::Xdg(s) => s,
            SurfaceKind::Wl(s) => s,
            SurfaceKind::X11(s) => s,
        }
    }
}

/// A popup surface, by the id of its `wl_surface`.
#[derive(Clone, Copy, PartialEq, Eq, Structural, Debug)]
pub enum PopupKind {
    Xdg(u64),
}

impl PopupKind {
    /// The id of the underlying `wl_surface`.
    pub open spec fn spec_surface(self) -> u64 {
        match self {
            PopupKind::Xdg(s) => s,
        }
    }

    /// The id of the underlying `wl_surface`.
    pub fn get_surface(self) -> (r: u64)
        ensures
            r == self.spec_surface(),
    {
        match self {
            PopupKind::Xdg(s) => s,
        }
    }
}

/// A popup known to the compositor.
#[derive(Clone, Copy, PartialEq, Eq, Structural, Debug)]
pub struct Popup {
    pub popup: PopupKind,
}

/// A mapped toplevel window.
#[derive(Clone, Copy, PartialEq, Eq, Structural, Debug)]
pub struct Window {
    pub location: Point,
    /// A bounding box over this window and its children.
    ///
    /// Used as the fall-back for the window geometry if that's not set
    /// explicitly.
    pub bbox: Rectangle,
    pub toplevel: SurfaceKind,
}

impl Window {
    /// Returns the geometry of this window: the geometry the client set, or
    /// the full bounding box as the fallback.
    pub fn geometry(&self, client_geometry: Option<Rectangle>) -> (r: Rectangle)
        ensures
            r == client_geometry.unwrap_or(self.bbox),
    {
        match client_geometry {
            Some(g) => g,
            None => self.bbox,
        }
    }
}

/// `i` is the first index of a window showing `t`.
pub open spec fn is_first_toplevel(ws: Seq<Window>, t: SurfaceKind, i: int) -> bool {
    &&& 0 <= i < ws.len()
    &&& ws[i].toplevel == t
    &&& forall|j: int| 0 <= j < i ==> ws[j].toplevel != t
}

/// The index of the topmost window showing `t`.
pub open spec fn toplevel_index(ws: Seq<Window>, t: SurfaceKind) -> Option<int> {
    if exists|i: int| is_first_toplevel(ws, t, i) {
        Some(choose|i: int| is_first_toplevel(ws, t, i))
    } else {
        None
    }
}

/// `i` is the first index of a window whose toplevel has the surface `s`.
pub open spec fn is_first_surface(ws: Seq<Window>, s: u64, i: int) -> bool {
    &&& 0 <= i < ws.len()
    &&& ws[i].toplevel.spec_surface() == s
    &&& forall|j: int| 0 <= j < i ==> ws[j].toplevel.spec_surface() != s
}

/// The index of the topmost window whose toplevel has the surface `s`.
pub open spec fn surface_index(ws: Seq<Window>, s: u64) -> Option<int> {
    if exists|i: int| is_first_surface(ws, s, i) {
        Some(choose|i: int| is_first_surface(ws, s, i))
    } else {
        None
    }
}

/// `i` is the first index of a popup with the surface `s`.
pub open spec fn is_first_popup(ps: Seq<Popup>, s: u64, i: int) -> bool {
    &&& 0 <= i < ps.len()
    &&& ps[i].popup.spec_surface() == s
    &&& forall|j: int| 0 <= j < i ==> ps[j].popup.spec_surface() != s
}

/// The first popup with the surface `s`.
pub open spec fn popup_index(ps: Seq<Popup>, s: u64) -> Option<int> {
    if exists|i: int| is_first_popup(ps, s, i) {
        Some(choose|i: int| is_first_popup(ps, s, i))
    } else {
        None
    }
}

proof fn lemma_first_toplevel_unique(ws: Seq<Window>, t: SurfaceKind, i: int, k: int)
    requires
        is_first_toplevel(ws, t, i),
        is_first_toplevel(ws, t, k),
    ensures
        i == k,
{
    if i < k {
        assert(ws[i].toplevel != t);
    } else if k < i {
        assert(ws[k].toplevel != t);
    }
}

proof fn lemma_first_surface_unique(ws: Seq<Window>, s: u64, i: int, k: int)
    requires
        is_first_surface(ws, s, i),
        is_first_surface(ws, s, k),
    ensures
        i == k,
{
    if i < k {
        assert(ws[i].toplevel.spec_surface() != s);
    } else if k < i {
        assert(ws[k].toplevel.spec_surface() != s);
    }
}

proof fn lemma_first_popup_unique(ps: Seq<Popup>, s: u64, i: int, k: int)
    requires
        is_first_popup(ps, s, i),
        is_first_popup(ps, s, k),
    ensures
        i == k,
{
    if i < k {
        assert(ps[i].popup.spec_surface() != s);
    } else if k < i {
        assert(ps[k].popup.spec_surface() != s);
    }
}

/// The windows kept by a refresh among the first `n`: the alive ones, with
/// their bounding boxes recomputed from their surface trees.
pub open spec fn refreshed_windows(
    ws: Seq<Window>,
    alive: Seq<bool>,
    trees: Seq<SurfaceTree>,
    n: int,
) -> Seq<Window>
    decreases n,
{
    if n <= 0 {
        Seq::empty()
    } else {
        let w = ws[n - 1];
        let kept = if alive[n - 1] {
            seq![Window { bbox: bbox_of(w.location, trees[n - 1]).unwrap(), ..w }]
        } else {
            Seq::empty()
        };
        refreshed_windows(ws, alive, trees, n - 1) + kept
    }
}

/// The popups among the first `n` that are still alive.
pub open spec fn alive_popups(ps: Seq<Popup>, alive: Seq<bool>, n: int) -> Seq<Popup>
    decreases n,
{
    if n <= 0 {
        Seq::empty()
    } else {
        alive_popups(ps, alive, n - 1) + if alive[n - 1] {
            seq![ps[n - 1]]
        } else {
            Seq::empty()
        }
    }
}

/// The popups from index `i` on whose parent is `base`, last first.
pub open spec fn child_popups_from(
    ps: Seq<Popup>,
    parents: Seq<Option<u64>>,
    base: u64,
    i: int,
) -> Seq<PopupKind>
    decreases ps.len() - i,
{
    if i < 0 || i >= ps.len() {
        Seq::empty()
    } else {
        child_popups_from(ps, parents, base, i + 1) + if parents[i] == Some(base) {
            seq![ps[i].popup]
        } else {
            Seq::empty()
        }
    }
}

/// The windows from index `i` down to the bottom that overlap `output`,
/// bottom first, each with the place it is drawn at on that output.
pub open spec fn windows_to_draw_from(ws: Seq<Window>, output: Rectangle, i: int) -> Seq<
    (SurfaceKind, Point),
>
    decreases ws.len() - i,
{
    if i < 0 || i >= ws.len() {
        Seq::empty()
    } else {
        let w = ws[i];
        windows_to_draw_from(ws, output, i + 1) + if output.spec_overlaps(w.bbox) {
            seq![(w.toplevel, Point { x: (w.location.x - output.loc.x) as i32, ..w.location })]
        } else {
            Seq::empty()
        }
    }
}

/// The window as it stands after its toplevel surface committed: its
/// bounding box follows `tree`, and a window resized from the top or the
/// left moves so that its opposite edges stay in place.
pub open spec fn committed_window(
    w: Window,
    tree: SurfaceTree,
    client_geometry: Option<Rectangle>,
    state: ResizeState,
) -> Window {
    let refreshed = Window { bbox: bbox_of(w.location, tree).unwrap(), ..w };
    let geometry = client_geometry.unwrap_or(refreshed.bbox);
    match state.data() {
        None => refreshed,
        Some(d) => match resized_location(d, w.location, geometry.size) {
            None => refreshed,
            Some(l) => Window { location: l, bbox: bbox_of(l, tree).unwrap(), ..w },
        },
    }
}

/// Whether committing a window stays within `i32`.
pub open spec fn commit_fits(
    w: Window,
    tree: SurfaceTree,
    client_geometry: Option<Rectangle>,
    state: ResizeState,
) -> bool {
    &&& bbox_of(w.location, tree) is Some
    &&& {
        let geometry = client_geometry.unwrap_or(bbox_of(w.location, tree).unwrap());
        match state.data() {
            None => true,
            Some(d) => d.edges.spec_intersects(edges::TOP_LEFT) ==> {
                &&& resized_location_fits(d, geometry.size)
                &&& bbox_of(resized_location(d, w.location, geometry.size).unwrap(), tree) is Some
            },
        }
    }
}

/// What a commit asks of the compositor besides updating the windows.
#[derive(Clone, Copy, PartialEq, Eq, Structural, Debug)]
pub struct CommitOutcome {
    /// The xdg toplevel of the committed surface, when it still needs its
    /// initial configure.
    pub configure_toplevel: Option<SurfaceKind>,
    /// The popup of the committed surface, when it still needs its initial
    /// configure.
    pub configure_popup: Option<PopupKind>,
}

/// The toplevel windows, topmost first, and the popups.
pub struct WindowMap {
    windows: Vec<Window>,
    popups: Vec<Popup>,
}

impl Default for WindowMap {
    fn default() -> (r: Self)
        ensures
            r.windows_view() == Seq::<Window>::empty(),
            r.popups_view() == Seq::<Popup>::empty(),
    {
        WindowMap { windows: Vec::new(), popups: Vec::new() }
    }
}

impl WindowMap {
    /// The windows, topmost first.
    pub closed spec fn windows_view(&self) -> Seq<Window> {
        self.windows@
    }

    /// The popups, in the order they were created.
    pub closed spec fn popups_view(&self) -> Seq<Popup> {
        self.popups@
    }

    /// Maps `toplevel` at `location` on top of every other window; its
    /// bounding box covers its surface tree.
    pub fn insert(&mut self, toplevel: SurfaceKind, location: Point, tree: &SurfaceTree)
        requires
            bbox_of(location, *tree) is Some,
        ensures
            final(self).windows_view() == seq![
                Window { location, bbox: bbox_of(location, *tree).unwrap(), toplevel },
            ] + old(self).windows_view(),
            final(self).popups_view() == old(self).popups_view(),
    {
        let bbox = SurfaceTree::bounding_box(location, tree);
        let window = Window { location, bbox, toplevel };
        self.windows.insert(0, window);
        assert(self.windows@ =~= seq![window] + old(self).windows@);
    }

    /// The toplevel of each window, topmost first.
    pub fn windows(&self) -> (r: Vec<SurfaceKind>)
        ensures
            r@.len() == self.windows_view().len(),
            forall|i: int|
                0 <= i < r@.len() ==> r@[i] == #[trigger] self.windows_view()[i].toplevel,
    {
        let mut r: Vec<SurfaceKind> = Vec::new();
        let mut i: usize = 0;
        while i < self.windows.len()
            invariant
                i <= self.windows@.len(),
                r@.len() == i,
                forall|j: int| 0 <= j < i ==> r@[j] == #[trigger] self.windows@[j].toplevel,
            decreases self.windows.len() - i,
        {
            r.push(self.windows[i].toplevel);
            i = i + 1;
        }
        r
    }

    /// Adds a popup.
    pub fn insert_popup(&mut self, popup: PopupKind)
        ensures
            final(self).popups_view() == old(self).popups_view().push(Popup { popup }),
            final(self).windows_view() == old(self).windows_view(),
    {
        let popup = Popup { popup };
        self.popups.push(popup);
    }

    /// Each window's toplevel, location and bounding box, from the
    /// bottommost to the topmost.
    pub fn with_windows_from_bottom_to_top(&self) -> (r: Vec<(SurfaceKind, Point, Rectangle)>)
        ensures
            r@.len() == self.windows_view().len(),
            forall|i: int|
                0 <= i < r@.len() ==> {
                    let w = self.windows_view()[self.windows_view().len() - 1 - i];
                    #[trigger] r@[i] == (w.toplevel, w.location, w.bbox)
                },
    {
        let mut r: Vec<(SurfaceKind, Point, Rectangle)> = Vec::new();
        let n = self.windows.len();
        let mut i: usize = n;
        while i > 0
            invariant
                i <= n,
                n == self.windows@.len(),
                r@.len() == n - i,
                forall|j: int|
                    0 <= j < r@.len() ==> {
                        let w = self.windows@[n - 1 - j];
                        #[trigger] r@[j] == (w.toplevel, w.location, w.bbox)
                    },
            decreases i,
        {
            i = i - 1;
            let w = &self.windows[i];
            r.push((w.toplevel, w.location, w.bbox));
        }
        r
    }

    /// The popups whose parent surface is `base`, most recent first.
    /// `parents` gives the parent surface of each popup.
    pub fn with_child_popups(&self, base: u64, parents: &Vec<Option<u64>>) -> (r: Vec<PopupKind>)
        requires
            parents@.len() == self.popups_view().len(),
        ensures
            r@ == child_popups_from(self.popups_view(), parents@, base, 0),
    {
        let mut r: Vec<PopupKind> = Vec::new();
        let mut i: usize = self.popups.len();
        while i > 0
            invariant
                i <= self.popups@.len(),
                parents@.len() == self.popups@.len(),
                r@ == child_popups_from(self.popups@, parents@, base, i as int),
            decreases i,
        {
            i = i - 1;
            if parents[i] == Some(base) {
                r.push(self.popups[i].popup);
            }
            assert(r@ =~= child_popups_from(self.popups@, parents@, base, i as int));
        }
        r
    }

    /// Drops the windows and popups that are no longer alive and recomputes
    /// the bounding box of every remaining window. `window_alive`, `trees`
    /// and `popup_alive` describe each window and popup, in order.
    pub fn refresh(
        &mut self,
        window_alive: &Vec<bool>,
        trees: &Vec<SurfaceTree>,
        popup_alive: &Vec<bool>,
    )
        requires
            window_alive@.len() == old(self).windows_view().len(),
            trees@.len() == old(self).windows_view().len(),
            popup_alive@.len() == old(self).popups_view().len(),
            forall|i: int|
                0 <= i < window_alive@.len() && #[trigger] window_alive@[i] ==> bbox_of(
                    old(self).windows_view()[i].location,
                    trees@[i],
                ) is Some,
        ensures
            final(self).windows_view() == refreshed_windows(
                old(self).windows_view(),
                window_alive@,
                trees@,
                window_alive@.len() as int,
            ),
            final(self).popups_view() == alive_popups(
                old(self).popups_view(),
                popup_alive@,
                popup_alive@.len() as int,
            ),
    {
        let mut windows: Vec<Window> = Vec::new();
        let mut i: usize = 0;
        while i < self.windows.len()
            invariant
                i <= self.windows@.len(),
                self.windows@ == old(self).windows@,
                window_alive@.len() == self.windows@.len(),
                trees@.len() == self.windows@.len(),
                forall|k: int|
                    0 <= k < window_alive@.len() && #[trigger] window_alive@[k] ==> bbox_of(
                        self.windows@[k].location,
                        trees@[k],
                    ) is Some,
                windows@ == refreshed_windows(self.windows@, window_alive@, trees@, i as int),
            decreases self.windows.len() - i,
        {
            if window_alive[i] {
                let w = self.windows[i];
                let bbox = SurfaceTree::bounding_box(w.location, &trees[i]);
                windows.push(Window { location: w.location, bbox, toplevel: w.toplevel });
            }
            i = i + 1;
        }
        let mut popups: Vec<Popup> = Vec::new();
        let mut j: usize = 0;
        while j < self.popups.len()
            invariant
                j <= self.popups@.len(),
                popup_alive@.len() == self.popups@.len(),
                popups@ == alive_popups(self.popups@, popup_alive@, j as int),
            decreases self.popups.len() - j,
        {
            if popup_alive[j] {
                popups.push(self.popups[j]);
            }
            j = j + 1;
        }
        self.windows = windows;
        self.popups = popups;
    }

    /// The index of the topmost window showing `toplevel`.
    fn index_of(&self, toplevel: SurfaceKind) -> (r: Option<usize>)
        ensures
            match r {
                None => toplevel_index(self.windows@, toplevel) is None,
                Some(k) => toplevel_index(self.windows@, toplevel) == Some(k as int)
                    && is_first_toplevel(self.windows@, toplevel, k as int),
            },
    {
        let mut i: usize = 0;
        while i < self.windows.len()
            invariant
                i <= self.windows@.len(),
                forall|j: int| 0 <= j < i ==> self.windows@[j].toplevel != toplevel,
            decreases self.windows.len() - i,
        {
            if self.windows[i].toplevel == toplevel {
                proof {
                    assert(is_first_toplevel(self.windows@, toplevel, i as int));
                    let k = choose|k: int| is_first_toplevel(self.windows@, toplevel, k);
                    lemma_first_toplevel_unique(self.windows@, toplevel, i as int, k);
                }
                return Some(i);
            }
            i = i + 1;
        }
        None
    }

    /// The index of the topmost window whose toplevel has `surface`.
    fn index_of_surface(&self, surface: u64) -> (r: Option<usize>)
        ensures
            match r {
                None => surface_index(self.windows@, surface) is None,
                Some(k) => surface_index(self.windows@, surface) == Some(k as int)
                    && is_first_surface(self.windows@, surface, k as int),
            },
    {
        let mut i: usize = 0;
        while i < self.windows.len()
            invariant
                i <= self.windows@.len(),
                forall|j: int|
                    0 <= j < i ==> self.windows@[j].toplevel.spec_surface() != surface,
            decreases self.windows.len() - i,
        {
            if self.windows[i].toplevel.get_surface() == surface {
                proof {
                    assert(is_first_surface(self.windows@, surface, i as int));
                    let k = choose|k: int| is_first_surface(self.windows@, surface, k);
                    lemma_first_surface_unique(self.windows@, surface, i as int, k);
                }
                return Some(i);
            }
            i = i + 1;
        }
        None
    }

    /// Recomputes the bounding box of the topmost window showing `toplevel`,
    /// if it exists.
    pub fn refresh_toplevel(&mut self, toplevel: SurfaceKind, tree: &SurfaceTree)
        requires
            match toplevel_index(old(self).windows_view(), toplevel) {
                Some(i) => bbox_of(old(self).windows_view()[i].location, *tree) is Some,
                None => true,
            },
        ensures
            final(self).windows_view() == match toplevel_index(old(self).windows_view(), toplevel) {
                None => old(self).windows_view(),
                Some(i) => old(self).windows_view().update(
                    i,
                    Window {
                        bbox: bbox_of(old(self).windows_view()[i].location, *tree).unwrap(),
                        ..old(self).windows_view()[i]
                    },
                ),
            },
            final(self).popups_view() == old(self).popups_view(),
    {
        if let Some(i) = self.index_of(toplevel) {
            let w = self.windows[i];
            let bbox = SurfaceTree::bounding_box(w.location, tree);
            self.windows.set(i, Window { location: w.location, bbox, toplevel: w.toplevel });
        }
    }

    /// Unmaps every window; the popups stay.
    pub fn clear(&mut self)
        ensures
            final(self).windows_view() == Seq::<Window>::empty(),
            final(self).popups_view() == old(self).popups_view(),
    {
        self.windows.clear();
    }

    /// Finds the toplevel corresponding to the given `wl_surface`.
    pub fn find(&self, surface: u64) -> (r: Option<SurfaceKind>)
        ensures
            r == (match surface_index(self.windows_view(), surface) {
                None => None,
                Some(i) => Some(self.windows_view()[i].toplevel),
            }),
    {
        match self.index_of_surface(surface) {
            None => None,
            Some(i) => Some(self.windows[i].toplevel),
        }
    }

    /// Finds the popup corresponding to the given `wl_surface`.
    pub fn find_popup(&self, surface: u64) -> (r: Option<PopupKind>)
        ensures
            r == (match popup_index(self.popups_view(), surface) {
                None => None,
                Some(i) => Some(self.popups_view()[i].popup),
            }),
    {
        let mut i: usize = 0;
        while i < self.popups.len()
            invariant
                i <= self.popups@.len(),
                forall|j: int| 0 <= j < i ==> self.popups@[j].popup.spec_surface() != surface,
            decreases self.popups.len() - i,
        {
            if self.popups[i].popup.get_surface() == surface {
                proof {
                    assert(is_first_popup(self.popups@, surface, i as int));
                    let k = choose|k: int| is_first_popup(self.popups@, surface, k);
                    lemma_first_popup_unique(self.popups@, surface, i as int, k);
                }
                return Some(self.popups[i].popup);
            }
            i = i + 1;
        }
        None
    }

    /// Returns the location of the toplevel, if it exists.
    pub fn location(&self, toplevel: SurfaceKind) -> (r: Option<Point>)
        ensures
            r == (match toplevel_index(self.windows_view(), toplevel) {
                None => None,
                Some(i) => Some(self.windows_view()[i].location),
            }),
    {
        match self.index_of(toplevel) {
            None => None,
            Some(i) => Some(self.windows[i].location),
        }
    }

    /// Sets the location of the toplevel, if it exists, and recomputes its
    /// bounding box there.
    pub fn set_location(&mut self, toplevel: SurfaceKind, location: Point, tree: &SurfaceTree)
        requires
            toplevel_index(old(self).windows_view(), toplevel) is Some ==> bbox_of(
                location,
                *tree,
            ) is Some,
        ensures
            final(self).windows_view() == match toplevel_index(old(self).windows_view(), toplevel) {
                None => old(self).windows_view(),
                Some(i) => old(self).windows_view().update(
                    i,
                    Window { location, bbox: bbox_of(location, *tree).unwrap(), toplevel },
                ),
            },
            final(self).popups_view() == old(self).popups_view(),
    {
        if let Some(i) = self.index_of(toplevel) {
            let bbox = SurfaceTree::bounding_box(location, tree);
            self.windows.set(i, Window { location, bbox, toplevel });
        }
    }

    /// Returns the geometry of the toplevel, if it exists. `client_geometry`
    /// is the geometry its client set, if any.
    pub fn geometry(&self, toplevel: SurfaceKind, client_geometry: Option<Rectangle>) -> (r:
        Option<Rectangle>)
        ensures
            r == (match toplevel_index(self.windows_view(), toplevel) {
                None => None,
                Some(i) => Some(client_geometry.unwrap_or(self.windows_view()[i].bbox)),
            }),
    {
        match self.index_of(toplevel) {
            None => None,
            Some(i) => Some(self.windows[i].geometry(client_geometry)),
        }
    }

    /// The frame callbacks to send at `time`: one for the surface tree of
    /// each window, topmost first.
    pub fn send_frames(&self, time: u32) -> (r: Vec<(SurfaceKind, u32)>)
        ensures
            r@.len() == self.windows_view().len(),
            forall|i: int|
                0 <= i < r@.len() ==> #[trigger] r@[i] == (self.windows_view()[i].toplevel, time),
    {
        let mut r: Vec<(SurfaceKind, u32)> = Vec::new();
        let mut i: usize = 0;
        while i < self.windows.len()
            invariant
                i <= self.windows@.len(),
                r@.len() == i,
                forall|j: int| 0 <= j < i ==> #[trigger] r@[j] == (self.windows@[j].toplevel, time),
            decreases self.windows.len() - i,
        {
            r.push((self.windows[i].toplevel, time));
            i = i + 1;
        }
        r
    }

    /// Raises the window at `index` above every other window and moves the
    /// keyboard activation to it: returns, in the order they are to be sent,
    /// the deactivation of every other window and then the activation of the
    /// raised one.
    pub fn bring_to_top(&mut self, index: usize) -> (r: Vec<(SurfaceKind, bool)>)
        requires
            index < old(self).windows_view().len(),
        ensures
            final(self).windows_view() == seq![old(self).windows_view()[index as int]] + old(
                self,
            ).windows_view().remove(index as int),
            final(self).popups_view() == old(self).popups_view(),
            r@.len() == old(self).windows_view().len(),
            forall|i: int|
                0 <= i < r@.len() - 1 ==> #[trigger] r@[i] == (
                    old(self).windows_view().remove(index as int)[i].toplevel,
                    false,
                ),
            r@[r@.len() - 1] == (old(self).windows_view()[index as int].toplevel, true),
    {
        let winner = self.windows.remove(index);
        let mut r: Vec<(SurfaceKind, bool)> = Vec::new();
        let mut i: usize = 0;
        while i < self.windows.len()
            invariant
                i <= self.windows@.len(),
                self.windows@ == old(self).windows@.remove(index as int),
                r@.len() == i,
                forall|j: int| 0 <= j < i ==> #[trigger] r@[j] == (self.windows@[j].toplevel, false),
            decreases self.windows.len() - i,
        {
            r.push((self.windows[i].toplevel, false));
            i = i + 1;
        }
        r.push((winner.toplevel, true));
        self.windows.insert(0, winner);
        assert(self.windows@ =~= seq![winner] + old(self).windows@.remove(index as int));
        r
    }

    /// The windows to draw on an output covering `output`, from the
    /// bottommost to the topmost: those whose bounding box overlaps the
    /// output, each with its location shifted left by the output's x.
    pub fn windows_to_draw(&self, output: Rectangle) -> (r: Vec<(SurfaceKind, Point)>)
        requires
            output.edges_fit(),
            forall|i: int|
                0 <= i < self.windows_view().len() ==> (#[trigger] self.windows_view()[i]).bbox.edges_fit()
                    && (output.spec_overlaps(self.windows_view()[i].bbox) ==> fits_i32(
                    self.windows_view()[i].location.x - output.loc.x,
                )),
        ensures
            r@ == windows_to_draw_from(self.windows_view(), output, 0),
    {
        let mut r: Vec<(SurfaceKind, Point)> = Vec::new();
        let mut i: usize = self.windows.len();
        while i > 0
            invariant
                i <= self.windows@.len(),
                output.edges_fit(),
                forall|k: int|
                    0 <= k < self.windows_view().len() ==> (
                    #[trigger] self.windows_view()[k]).bbox.edges_fit() && (output.spec_overlaps(
                        self.windows_view()[k].bbox,
                    ) ==> fits_i32(self.windows_view()[k].location.x - output.loc.x)),
                r@ == windows_to_draw_from(self.windows@, output, i as int),
            decreases i,
        {
            i = i - 1;
            let w = self.windows[i];
            assert(self.windows_view()[i as int] == w);
            if output.overlaps(w.bbox) {
                let place = Point { x: w.location.x - output.loc.x, y: w.location.y };
                r.push((w.toplevel, place));
            }
            assert(r@ =~= windows_to_draw_from(self.windows@, output, i as int));
        }
        r
    }

    /// The surface `surface` committed. When it is the toplevel of a window,
    /// that window's bounding box is recomputed from `tree`, an ongoing
    /// resize may move it (see `committed_window`) and a resize that waited
    /// for this commit ends. `client_geometry` is the geometry the client
    /// set on it; `toplevel_configured` and `popup_configured` tell whether
    /// the initial configure of the surface's xdg toplevel or popup role was
    /// sent.
    pub fn commit(
        &mut self,
        surface: u64,
        tree: &SurfaceTree,
        client_geometry: Option<Rectangle>,
        resize_state: &mut ResizeState,
        toplevel_configured: bool,
        popup_configured: bool,
    ) -> (r: CommitOutcome)
        requires
            match surface_index(old(self).windows_view(), surface) {
                None => true,
                Some(k) => commit_fits(
                    old(self).windows_view()[k],
                    *tree,
                    client_geometry,
                    *old(resize_state),
                ),
            },
        ensures
            match surface_index(old(self).windows_view(), surface) {
                None => {
                    &&& final(self).windows_view() == old(self).windows_view()
                    &&& *final(resize_state) == *old(resize_state)
                    &&& r.configure_toplevel is None
                },
                Some(k) => {
                    &&& final(self).windows_view() == old(self).windows_view().update(
                        k,
                        committed_window(
                            old(self).windows_view()[k],
                            *tree,
                            client_geometry,
                            *old(resize_state),
                        ),
                    )
                    &&& *final(resize_state) == old(resize_state).spec_after_commit()
                    &&& r.configure_toplevel == (if old(self).windows_view()[k].toplevel is Xdg
                        && !toplevel_configured {
                        Some(old(self).windows_view()[k].toplevel)
                    } else {
                        None
                    })
                },
            },
            final(self).popups_view() == old(self).popups_view(),
            r.configure_popup == (match popup_index(old(self).popups_view(), surface) {
                Some(p) => if !popup_configured {
                    Some(old(self).popups_view()[p].popup)
                } else {
                    None
                },
                None => None,
            }),
    {
        let mut outcome = CommitOutcome { configure_toplevel: None, configure_popup: None };
        let ghost ws0 = self.windows@;
        if let Some(toplevel) = self.find(surface) {
            let ghost k = surface_index(ws0, surface).unwrap();
            proof {
                assert(is_first_toplevel(ws0, toplevel, k));
                let j = choose|j: int| is_first_toplevel(ws0, toplevel, j);
                lemma_first_toplevel_unique(ws0, toplevel, k, j);
            }
            if let SurfaceKind::Xdg(_) = toplevel {
                if !toplevel_configured {
                    outcome.configure_toplevel = Some(toplevel);
                }
            }
            self.refresh_toplevel(toplevel, tree);
            let ghost ws1 = self.windows@;
            proof {
                assert(is_first_toplevel(ws1, toplevel, k));
                let j = choose|j: int| is_first_toplevel(ws1, toplevel, j);
                lemma_first_toplevel_unique(ws1, toplevel, k, j);
            }
            let geometry = self.geometry(toplevel, client_geometry).unwrap();
            let location = self.location(toplevel).unwrap();
            let new_location = resize_state.commit(location, geometry.size);
            if let Some(l) = new_location {
                self.set_location(toplevel, l, tree);
            }
            assert(self.windows@ =~= ws0.update(
                k,
                committed_window(ws0[k], *tree, client_geometry, *old(resize_state)),
            ));
        }
        if let Some(popup) = self.find_popup(surface) {
            if !popup_configured {
                outcome.configure_popup = Some(popup);
            }
        }
        outcome
    }
}

/// A window just mapped is the topmost one: lookups by its toplevel find
/// it, so `location` and `geometry` report what `insert` was given.
pub proof fn lemma_inserted_window_found(ws: Seq<Window>, w: Window)
    ensures
        toplevel_index(seq![w] + ws, w.toplevel) == Some(0int),
{
    let ws2 = seq![w] + ws;
    assert(is_first_toplevel(ws2, w.toplevel, 0));
    let k = choose|k: int| is_first_toplevel(ws2, w.toplevel, k);
    lemma_first_toplevel_unique(ws2, w.toplevel, 0, k);
}

/// The toplevel of each window, in order.
pub open spec fn toplevels(ws: Seq<Window>) -> Seq<SurfaceKind> {
    ws.map_values(|w: Window| w.toplevel)
}

/// Mapping a window puts its toplevel in front of the others, and lookups
/// by that toplevel find the new window: `location` then reports where it
/// was mapped.
pub proof fn lemma_insert_in_front(ws: Seq<Window>, w: Window)
    ensures
        toplevels(seq![w] + ws) == seq![w.toplevel] + toplevels(ws),
        toplevel_index(seq![w] + ws, w.toplevel) == Some(0int),
        (seq![w] + ws)[0].location == w.location,
{
    assert(toplevels(seq![w] + ws) =~= seq![w.toplevel] + toplevels(ws));
    lemma_inserted_window_found(ws, w);
}

/// Moving a window keeps it where lookups find it: after `set_location`
/// of a mapped toplevel, `location` reports the new location, the order of
/// the windows is the same, and every other window is as it was.
pub proof fn lemma_moved_window_found(ws: Seq<Window>, t: SurfaceKind, i: int, w: Window)
    requires
        toplevel_index(ws, t) == Some(i),
        w.toplevel == t,
    ensures
        toplevel_index(ws.update(i, w), t) == Some(i),
        ws.update(i, w)[i].location == w.location,
        toplevels(ws.update(i, w)) == toplevels(ws),
        forall|j: int| 0 <= j < ws.len() && j != i ==> #[trigger] ws.update(i, w)[j] == ws[j],
{
    let k0 = choose|k: int| is_first_toplevel(ws, t, k);
    assert(is_first_toplevel(ws, t, k0));
    let ws2 = ws.update(i, w);
    assert(is_first_toplevel(ws2, t, i));
    let k = choose|k: int| is_first_toplevel(ws2, t, k);
    lemma_first_toplevel_unique(ws2, t, i, k);
    assert(toplevels(ws2) =~= toplevels(ws));
}

/// Raising a window loses no window and adds none: the windows after
/// `bring_to_top` are those before, the raised one now found first.
pub proof fn lemma_raise_keeps_windows(ws: Seq<Window>, i: int)
    requires
        0 <= i < ws.len(),
    ensures
        (seq![ws[i]] + ws.remove(i)).to_multiset() == ws.to_multiset(),
        (seq![ws[i]] + ws.remove(i)).len() == ws.len(),
        toplevel_index(seq![ws[i]] + ws.remove(i), ws[i].toplevel) == Some(0int),
{
    broadcast use vstd::seq_lib::group_to_multiset_ensures;
    let rest = ws.remove(i);
    assert(ws =~= ws.subrange(0, i) + seq![ws[i]] + ws.subrange(i + 1, ws.len() as int));
    assert(rest =~= ws.subrange(0, i) + ws.subrange(i + 1, ws.len() as int));
    vstd::seq_lib::lemma_multiset_commutative(ws.subrange(0, i) + seq![ws[i]], ws.subrange(i + 1, ws.len() as int));
    vstd::seq_lib::lemma_multiset_commutative(ws.subrange(0, i), seq![ws[i]]);
    vstd::seq_lib::lemma_multiset_commutative(seq![ws[i]], rest);
    vstd::seq_lib::lemma_multiset_commutative(ws.subrange(0, i), ws.subrange(i + 1, ws.len() as int));
    lemma_inserted_window_found(rest, ws[i]);
}

/// A refresh keeps exactly the alive windows, in their order, each where
/// it was: every window kept was alive, and every alive window is kept.
pub proof fn lemma_refresh_keeps_alive(
    ws: Seq<Window>,
    alive: Seq<bool>,
    trees: Seq<SurfaceTree>,
    n: int,
)
    requires
        0 <= n <= ws.len(),
        n <= alive.len(),
    ensures
        forall|k: int|
            0 <= k < refreshed_windows(ws, alive, trees, n).len() ==> exists|i: int|
                0 <= i < n && alive[i] && #[trigger] refreshed_windows(ws, alive, trees, n)[k].toplevel
                    == ws[i].toplevel && refreshed_windows(ws, alive, trees, n)[k].location
                    == ws[i].location,
        forall|i: int|
            0 <= i < n && #[trigger] alive[i] ==> exists|k: int|
                0 <= k < refreshed_windows(ws, alive, trees, n).len() && refreshed_windows(
                    ws,
                    alive,
                    trees,
                    n,
                )[k].toplevel == ws[i].toplevel && refreshed_windows(ws, alive, trees, n)[k].location
                    == ws[i].location,
    decreases n,
{
    if n > 0 {
        lemma_refresh_keeps_alive(ws, alive, trees, n - 1);
        let prev = refreshed_windows(ws, alive, trees, n - 1);
        let cur = refreshed_windows(ws, alive, trees, n);
        assert forall|k: int| 0 <= k < cur.len() implies exists|i: int|
            0 <= i < n && alive[i] && #[trigger] cur[k].toplevel == ws[i].toplevel
                && cur[k].location == ws[i].location by {
            if k < prev.len() {
                assert(cur[k] == prev[k]);
                let i = choose|i: int|
                    0 <= i < n - 1 && alive[i] && #[trigger] prev[k].toplevel == ws[i].toplevel
                        && prev[k].location == ws[i].location;
                assert(cur[k].toplevel == ws[i].toplevel);
            } else {
                assert(alive[n - 1]);
                assert(cur[k].toplevel == ws[n - 1].toplevel);
            }
        }
        assert forall|i: int| 0 <= i < n && #[trigger] alive[i] implies exists|k: int|
            0 <= k < cur.len() && cur[k].toplevel == ws[i].toplevel && cur[k].location
                == ws[i].location by {
            if i < n - 1 {
                let k = choose|k: int|
                    0 <= k < prev.len() && prev[k].toplevel == ws[i].toplevel && prev[k].location
                        == ws[i].location;
                assert(cur[k] == prev[k]);
            } else {
                assert(cur[prev.len() as int].toplevel == ws[i].toplevel);
            }
        }
    }
}

/// The surface trees of the windows kept by a refresh among the first `n`.
pub open spec fn kept_trees(alive: Seq<bool>, trees: Seq<SurfaceTree>, n: int) -> Seq<SurfaceTree>
    decreases n,
{
    if n <= 0 {
        Seq::empty()
    } else {
        kept_trees(alive, trees, n - 1) + if alive[n - 1] {
            seq![trees[n - 1]]
        } else {
            Seq::empty()
        }
    }
}

/// Every one of `n` windows or popups alive.
pub open spec fn all_alive(n: nat) -> Seq<bool> {
    Seq::new(n, |i: int| true)
}

proof fn lemma_refreshed_prefix(
    a: Seq<Window>,
    al: Seq<bool>,
    tr: Seq<SurfaceTree>,
    b: Seq<Window>,
    bl: Seq<bool>,
    btr: Seq<SurfaceTree>,
    m: int,
)
    requires
        forall|i: int| 0 <= i < m ==> a[i] == b[i] && al[i] == bl[i] && tr[i] == btr[i],
    ensures
        refreshed_windows(a, al, tr, m) == refreshed_windows(b, bl, btr, m),
    decreases m,
{
    if m > 0 {
        lemma_refreshed_prefix(a, al, tr, b, bl, btr, m - 1);
    }
}

proof fn lemma_alive_popups_prefix(a: Seq<Popup>, al: Seq<bool>, b: Seq<Popup>, bl: Seq<bool>, m: int)
    requires
        forall|i: int| 0 <= i < m ==> a[i] == b[i] && al[i] == bl[i],
    ensures
        alive_popups(a, al, m) == alive_popups(b, bl, m),
    decreases m,
{
    if m > 0 {
        lemma_alive_popups_prefix(a, al, b, bl, m - 1);
    }
}

/// Refreshing again changes nothing: once dead windows are dropped, a
/// second refresh that finds every remaining window alive, each with the
/// same surface tree, keeps the windows and their boxes as they are.
pub proof fn lemma_refresh_idempotent(ws: Seq<Window>, alive: Seq<bool>, trees: Seq<SurfaceTree>, n: int)
    requires
        0 <= n <= ws.len(),
        n <= alive.len(),
        n <= trees.len(),
    ensures
        ({
            let ws1 = refreshed_windows(ws, alive, trees, n);
            let t1 = kept_trees(alive, trees, n);
            &&& ws1.len() == t1.len()
            &&& refreshed_windows(ws1, all_alive(ws1.len()), t1, ws1.len() as int) == ws1
        }),
    decreases n,
{
    if n > 0 {
        lemma_refresh_idempotent(ws, alive, trees, n - 1);
        let prev = refreshed_windows(ws, alive, trees, n - 1);
        let tp = kept_trees(alive, trees, n - 1);
        let ws1 = refreshed_windows(ws, alive, trees, n);
        let t1 = kept_trees(alive, trees, n);
        let l = prev.len() as int;
        assert forall|i: int| 0 <= i < l implies ws1[i] == prev[i] && all_alive(ws1.len())[i]
            == all_alive(prev.len())[i] && t1[i] == tp[i] by {}
        lemma_refreshed_prefix(ws1, all_alive(ws1.len()), t1, prev, all_alive(prev.len()), tp, l);
        if alive[n - 1] {
            assert(ws1[l].location == ws[n - 1].location);
            assert(t1[l] == trees[n - 1]);
            assert(refreshed_windows(ws1, all_alive(ws1.len()), t1, l + 1) =~= ws1);
        } else {
            assert(ws1 =~= prev);
            assert(t1 =~= tp);
        }
    }
}

/// Refreshing again keeps the popups: a second refresh that finds every
/// remaining popup alive drops none.
pub proof fn lemma_refresh_popups_idempotent(ps: Seq<Popup>, alive: Seq<bool>, n: int)
    requires
        0 <= n <= ps.len(),
        n <= alive.len(),
    ensures
        ({
            let ps1 = alive_popups(ps, alive, n);
            alive_popups(ps1, all_alive(ps1.len()), ps1.len() as int) == ps1
        }),
    decreases n,
{
    if n > 0 {
        lemma_refresh_popups_idempotent(ps, alive, n - 1);
        let prev = alive_popups(ps, alive, n - 1);
        let ps1 = alive_popups(ps, alive, n);
        let l = prev.len() as int;
        assert forall|i: int| 0 <= i < l implies ps1[i] == prev[i] && all_alive(ps1.len())[i]
            == all_alive(prev.len())[i] by {}
        lemma_alive_popups_prefix(ps1, all_alive(ps1.len()), prev, all_alive(prev.len()), l);
        if alive[n - 1] {
            assert(alive_popups(ps1, all_alive(ps1.len()), l + 1) =~= ps1);
        } else {
            assert(ps1 =~= prev);
        }
    }
}

/// Windows are drawn bottommost first, so that each window is painted over
/// the windows below it: the windows drawn on `output` are exactly those
/// whose bounding box overlaps it, each once, at its location shifted left
/// by the output's x, and a window lower in the stack (a higher index)
/// comes before every window above it. The returned sequence gives, for
/// each entry drawn, the stack index of its window.
pub proof fn lemma_draw_bottom_first(ws: Seq<Window>, output: Rectangle) -> (idx: Seq<int>)
    ensures
        idx.len() == windows_to_draw_from(ws, output, 0).len(),
        forall|k: int|
            0 <= k < idx.len() ==> {
                &&& 0 <= #[trigger] idx[k] < ws.len()
                &&& output.spec_overlaps(ws[idx[k]].bbox)
                &&& windows_to_draw_from(ws, output, 0)[k].0 == ws[idx[k]].toplevel
                &&& windows_to_draw_from(ws, output, 0)[k].1.x == (ws[idx[k]].location.x
                    - output.loc.x) as i32
                &&& windows_to_draw_from(ws, output, 0)[k].1.y == ws[idx[k]].location.y
            },
        forall|k1: int, k2: int| 0 <= k1 < k2 < idx.len() ==> idx[k1] > idx[k2],
        forall|j: int|
            0 <= j < ws.len() && output.spec_overlaps(ws[j].bbox) ==> exists|k: int|
                0 <= k < idx.len() && idx[k] == j,
{
    lemma_draw_bottom_first_from(ws, output, 0)
}

proof fn lemma_draw_bottom_first_from(ws: Seq<Window>, output: Rectangle, i: int) -> (idx: Seq<int>)
    requires
        0 <= i,
    ensures
        idx.len() == windows_to_draw_from(ws, output, i).len(),
        forall|k: int|
            0 <= k < idx.len() ==> {
                &&& i <= #[trigger] idx[k] < ws.len()
                &&& output.spec_overlaps(ws[idx[k]].bbox)
                &&& windows_to_draw_from(ws, output, i)[k].0 == ws[idx[k]].toplevel
                &&& windows_to_draw_from(ws, output, i)[k].1.x == (ws[idx[k]].location.x
                    - output.loc.x) as i32
                &&& windows_to_draw_from(ws, output, i)[k].1.y == ws[idx[k]].location.y
            },
        forall|k1: int, k2: int| 0 <= k1 < k2 < idx.len() ==> idx[k1] > idx[k2],
        forall|j: int|
            i <= j < ws.len() && output.spec_overlaps(ws[j].bbox) ==> exists|k: int|
                0 <= k < idx.len() && idx[k] == j,
    decreases ws.len() - i,
{
    if i >= ws.len() {
        Seq::empty()
    } else {
        let rest = lemma_draw_bottom_first_from(ws, output, i + 1);
        let r = windows_to_draw_from(ws, output, i);
        let r1 = windows_to_draw_from(ws, output, i + 1);
        if output.spec_overlaps(ws[i].bbox) {
            let idx = rest.push(i);
            assert forall|k: int| 0 <= k < idx.len() implies {
                &&& i <= #[trigger] idx[k] < ws.len()
                &&& output.spec_overlaps(ws[idx[k]].bbox)
                &&& r[k].0 == ws[idx[k]].toplevel
                &&& r[k].1.x == (ws[idx[k]].location.x - output.loc.x) as i32
                &&& r[k].1.y == ws[idx[k]].location.y
            } by {
                if k < rest.len() {
                    assert(r[k] == r1[k]);
                    assert(idx[k] == rest[k]);
                }
            }
            assert forall|j: int|
                i <= j < ws.len() && output.spec_overlaps(ws[j].bbox) implies exists|k: int|
                0 <= k < idx.len() && idx[k] == j by {
                if j == i {
                    assert(idx[rest.len() as int] == i);
                } else {
                    let k = choose|k: int| 0 <= k < rest.len() && rest[k] == j;
                    assert(idx[k] == j);
                }
            }
            idx
        } else {
            assert(r =~= r1);
            rest
        }
    }
}

} // verus!

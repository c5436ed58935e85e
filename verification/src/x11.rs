//! The X11 window manager run for Xwayland: what it answers to the X
//! server's requests, and how X11 windows are paired with the Wayland
//! surfaces that Xwayland creates for them.

use vstd::prelude::*;
use std::collections::HashMap;
use crate::geometry::Point;

verus! {

broadcast use vstd::std_specs::hash::group_hash_axioms;

/// Bit of a configure request's value mask: the x coordinate is given.
pub const CONFIG_X: u16 = 1;

/// Bit of a configure request's value mask: the y coordinate is given.
pub const CONFIG_Y: u16 = 2;

/// Bit of a configure request's value mask: the width is given.
pub const CONFIG_WIDTH: u16 = 4;

/// Bit of a configure request's value mask: the height is given.
pub const CONFIG_HEIGHT: u16 = 8;

/// Bit of a configure request's value mask: the border width is given.
pub const CONFIG_BORDER_WIDTH: u16 = 16;

/// Bit of a configure request's value mask: the sibling is given.
pub const CONFIG_SIBLING: u16 = 32;

/// Bit of a configure request's value mask: the stack mode is given.
pub const CONFIG_STACK_MODE: u16 = 64;

/// An X11 client's request to configure one of its windows.
#[derive(Clone, Copy, PartialEq, Eq, Structural, Debug)]
pub struct ConfigureRequest {
    pub window: u32,
    pub sibling: u32,
    pub x: i16,
    pub y: i16,
    pub width: u16,
    pub height: u16,
    pub border_width: u16,
    /// Which of the fields the client asks for.
    pub value_mask: u16,
    pub stack_mode: u32,
}

/// The configuration to apply to a window: each field that is set.
#[derive(Clone, Copy, PartialEq, Eq, Structural, Debug)]
pub struct WindowConfig {
    pub x: Option<i32>,
    pub y: Option<i32>,
    pub width: Option<u32>,
    pub height: Option<u32>,
    pub border_width: Option<u32>,
    pub sibling: Option<u32>,
    pub stack_mode: Option<u32>,
}

/// The atoms the window manager interns on the X server.
#[derive(Clone, Copy, PartialEq, Eq, Structural, Debug)]
pub struct X11Atoms {
    pub wm_s0: u32,
    pub wl_surface_id: u32,
    pub close_connection: u32,
}

/// An event from the X server, with what the window manager reads of it.
#[derive(Clone, Copy, PartialEq, Eq, Structural, Debug)]
pub enum X11Event {
    ConfigureRequest(ConfigureRequest),
    MapRequest { window: u32 },
    /// A client message: its window, its type and the first 32-bit word
    /// of its data.
    ClientMessage { window: u32, type_: u32, data0: u32 },
    /// Any other event, which the window manager ignores.
    Other,
}

/// What the window manager does about an event.
#[derive(Clone, Copy, PartialEq, Eq, Structural, Debug)]
pub enum X11Action {
    /// Configure the window as given.
    Configure { window: u32, config: WindowConfig },
    /// Map the window.
    MapWindow { window: u32 },
    /// Xwayland announced the Wayland surface of an X11 window: look up
    /// the window's geometry and the surface, then pair them.
    PairSurface { window: u32, surface_id: u32 },
    Nothing,
}

/// An X11 surface: the Wayland surface of an X11 window, by protocol id.
#[derive(Clone, Copy, PartialEq, Eq, Structural, Debug)]
pub struct X11Surface {
    pub surface: u32,
}

/// X11 windows whose Wayland surface was announced before it existed, by
/// surface id: the window and its location.
pub type Unpaired = HashMap<u32, (u32, Point)>;

/// Whether `bit` is set in `mask`.
pub open spec fn has_bit(mask: u16, bit: u16) -> bool {
    mask & bit != 0
}

/// The value of a field if its bit is set in `mask`.
pub open spec fn if_set<T>(mask: u16, bit: u16, value: T) -> Option<T> {
    if has_bit(mask, bit) {
        Some(value)
    } else {
        None
    }
}

/// The configuration that grants a request exactly: every field it asks
/// for, with the value it asks for.
pub open spec fn requested_config(r: ConfigureRequest) -> WindowConfig {
    WindowConfig {
        x: if_set(r.value_mask, CONFIG_X, r.x as i32),
        y: if_set(r.value_mask, CONFIG_Y, r.y as i32),
        width: if_set(r.value_mask, CONFIG_WIDTH, r.width as u32),
        height: if_set(r.value_mask, CONFIG_HEIGHT, r.height as u32),
        border_width: if_set(r.value_mask, CONFIG_BORDER_WIDTH, r.border_width as u32),
        sibling: if_set(r.value_mask, CONFIG_SIBLING, r.sibling),
        stack_mode: if_set(r.value_mask, CONFIG_STACK_MODE, r.stack_mode),
    }
}

/// Grants a configure request: the configuration holds each field the
/// request's mask names.
pub fn x11_configure(r: &ConfigureRequest) -> (c: WindowConfig)
    ensures
        c == requested_config(*r),
{
    let mask = r.value_mask;
    let mut c = WindowConfig {
        x: None,
        y: None,
        width: None,
        height: None,
        border_width: None,
        sibling: None,
        stack_mode: None,
    };
    if mask & CONFIG_STACK_MODE != 0 {
        c.stack_mode = Some(r.stack_mode);
    }
    if mask & CONFIG_SIBLING != 0 {
        c.sibling = Some(r.sibling);
    }
    if mask & CONFIG_X != 0 {
        c.x = Some(r.x as i32);
    }
    if mask & CONFIG_Y != 0 {
        c.y = Some(r.y as i32);
    }
    if mask & CONFIG_WIDTH != 0 {
        c.width = Some(r.width as u32);
    }
    if mask & CONFIG_HEIGHT != 0 {
        c.height = Some(r.height as u32);
    }
    if mask & CONFIG_BORDER_WIDTH != 0 {
        c.border_width = Some(r.border_width as u32);
    }
    c
}

/// What the window manager does about an event: grant configure and map
/// requests, pair the surfaces Xwayland announces, ignore the rest.
pub open spec fn x11_action(atoms: X11Atoms, event: X11Event) -> X11Action {
    match event {
        X11Event::ConfigureRequest(r) => X11Action::Configure {
            window: r.window,
            config: requested_config(r),
        },
        X11Event::MapRequest { window } => X11Action::MapWindow { window },
        X11Event::ClientMessage { window, type_, data0 } => if type_ == atoms.wl_surface_id {
            X11Action::PairSurface { window, surface_id: data0 }
        } else {
            X11Action::Nothing
        },
        X11Event::Other => X11Action::Nothing,
    }
}

/// Handles an event from the X server: the action to take for it.
pub fn x11_handle(atoms: &X11Atoms, event: X11Event) -> (a: X11Action)
    ensures
        a == x11_action(*atoms, event),
{
    match event {
        X11Event::ConfigureRequest(r) => {
            X11Action::Configure { window: r.window, config: x11_configure(&r) }
        },
        X11Event::MapRequest { window } => X11Action::MapWindow { window },
        X11Event::ClientMessage { window, type_, data0 } => {
            if type_ == atoms.wl_surface_id {
                X11Action::PairSurface { window, surface_id: data0 }
            } else {
                X11Action::Nothing
            }
        },
        X11Event::Other => X11Action::Nothing,
    }
}

/// Where an X11 window appears: at its geometry's corner when the X
/// server told it, else at the origin.
pub open spec fn x11_location(geometry: Option<(i16, i16)>) -> Point {
    match geometry {
        Some((x, y)) => Point { x: x as i32, y: y as i32 },
        None => Point { x: 0, y: 0 },
    }
}

/// Pairs an X11 window with the Wayland surface `surface_id` that
/// Xwayland announced for it. `geometry` is the window's corner as the X
/// server reported it, if it did; `surface_exists` says whether the
/// Wayland client has created that surface yet. When it has, the window
/// and its location are returned for mapping; when not, they wait in
/// `unpaired` under the surface id.
pub fn x11_pair_surface(
    window: u32,
    surface_id: u32,
    geometry: Option<(i16, i16)>,
    surface_exists: bool,
    unpaired: &mut Unpaired,
) -> (r: Option<(u32, u32, Point)>)
    ensures
        surface_exists ==> r == Some((window, surface_id, x11_location(geometry)))
            && final(unpaired)@ == old(unpaired)@,
        !surface_exists ==> r is None && final(unpaired)@ == old(unpaired)@.insert(
            surface_id,
            (window, x11_location(geometry)),
        ),
{
    let location = match geometry {
        Some((x, y)) => Point { x: x as i32, y: y as i32 },
        None => Point { x: 0, y: 0 },
    };
    if surface_exists {
        Some((window, surface_id, location))
    } else {
        unpaired.insert(surface_id, (window, location));
        None
    }
}

/// Makes the Wayland surface `surface` of an X11 window an X11 surface.
/// `role_granted` says whether the surface took the X11 role; a surface
/// that already had another role is left alone.
pub fn x11_new_window(window: u32, surface: u32, location: Point, role_granted: bool) -> (r:
    Option<X11Surface>)
    ensures
        r == (if role_granted {
            Some(X11Surface { surface })
        } else {
            None
        }),
{
    if role_granted {
        Some(X11Surface { surface })
    } else {
        None
    }
}

/// A configure request is granted field by field: each field of the
/// configuration is set, to the value asked for, exactly when its own bit
/// of the protocol's value mask is set (x 1, y 2, width 4, height 8, border
/// width 16, sibling 32, stack mode 64), whatever the other bits say.
pub proof fn lemma_configure_grants_each_field(r: ConfigureRequest)
    ensures
        requested_config(r).x == (if r.value_mask & 1 != 0 {
            Some(r.x as i32)
        } else {
            None
        }),
        requested_config(r).y == (if r.value_mask & 2 != 0 {
            Some(r.y as i32)
        } else {
            None
        }),
        requested_config(r).width == (if r.value_mask & 4 != 0 {
            Some(r.width as u32)
        } else {
            None
        }),
        requested_config(r).height == (if r.value_mask & 8 != 0 {
            Some(r.height as u32)
        } else {
            None
        }),
        requested_config(r).border_width == (if r.value_mask & 16 != 0 {
            Some(r.border_width as u32)
        } else {
            None
        }),
        requested_config(r).sibling == (if r.value_mask & 32 != 0 {
            Some(r.sibling)
        } else {
            None
        }),
        requested_config(r).stack_mode == (if r.value_mask & 64 != 0 {
            Some(r.stack_mode)
        } else {
            None
        }),
{
}

/// What the window manager answers: configure requests are granted for the
/// window that asked, map requests map the window asked for, and a client
/// message pairs its window with a Wayland surface exactly when its type is
/// the `WL_SURFACE_ID` atom, the surface being the message's first word;
/// every other event is left alone.
pub proof fn lemma_x11_answers(atoms: X11Atoms, event: X11Event)
    ensures
        event matches X11Event::ConfigureRequest(r) ==> x11_action(atoms, event)
            == (X11Action::Configure { window: r.window, config: requested_config(r) }),
        event matches X11Event::MapRequest { window } ==> x11_action(atoms, event)
            == (X11Action::MapWindow { window }),
        event matches X11Event::ClientMessage { window, type_, data0 } ==> (x11_action(
            atoms,
            event,
        ) == (if type_ == atoms.wl_surface_id {
            X11Action::PairSurface { window, surface_id: data0 }
        } else {
            X11Action::Nothing
        })),
        event is Other ==> x11_action(atoms, event) == X11Action::Nothing,
{
}

} // verus!

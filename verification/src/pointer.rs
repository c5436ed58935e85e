//! Pointer buttons: the code each button is sent with, and what a press or
//! a release does to the stacking order, the keyboard focus and the
//! dragging of the workspace background.

use vstd::prelude::*;
use crate::geometry::{Point, fits_i32};
use crate::window_map::{SurfaceKind, WindowMap};

verus! {

/// A button of a pointer device.
#[derive(Clone, Copy, PartialEq, Eq, Structural, Debug)]
pub enum MouseButton {
    Left,
    Middle,
    Right,
    /// Another button, by index.
    Other(u8),
}

/// The Linux input event code a button is sent to clients with.
pub open spec fn spec_button_code(button: MouseButton) -> u32 {
    match button {
        MouseButton::Left => 0x110,
        MouseButton::Right => 0x111,
        MouseButton::Middle => 0x112,
        MouseButton::Other(b) => b as u32,
    }
}

/// The Linux input event code a button is sent to clients with.
pub fn button_code(button: MouseButton) -> (c: u32)
    ensures
        c == spec_button_code(button),
{
    match button {
        MouseButton::Left => 0x110,
        MouseButton::Right => 0x111,
        MouseButton::Middle => 0x112,
        MouseButton::Other(b) => b as u32,
    }
}

/// What a button event leads to, besides the state of the window map and
/// of the dragging flag.
pub struct ButtonOutcome {
    /// The code the button is forwarded with.
    pub code: u32,
    /// Whether it is forwarded as pressed.
    pub pressed: bool,
    /// The surface that gets the keyboard focus, if the focus changes.
    pub focus: Option<u64>,
    /// The activation changes to send, in order.
    pub activations: Vec<(SurfaceKind, bool)>,
}

/// Handles a pointer button. `grabbed` says whether a grab holds the
/// pointer; `under` is the window under the pointer, by its position in
/// the stacking order, with the surface of it that lies under the pointer.
///
/// A press while no grab holds the pointer raises the window under it
/// and gives the keyboard focus to the surface under the pointer; over
/// the background it starts dragging the background. A release stops
/// the dragging. The button is forwarded in every case.
pub fn on_button(
    map: &mut WindowMap,
    dragging: &mut bool,
    button: MouseButton,
    pressed: bool,
    grabbed: bool,
    under: Option<(usize, u64)>,
) -> (r: ButtonOutcome)
    requires
        under matches Some((i, _)) ==> i < old(map).windows_view().len(),
    ensures
        r.code == spec_button_code(button),
        r.pressed == pressed,
        final(map).popups_view() == old(map).popups_view(),
        !pressed ==> {
            &&& !*final(dragging)
            &&& final(map).windows_view() == old(map).windows_view()
            &&& r.focus is None
            &&& r.activations@.len() == 0
        },
        pressed && grabbed ==> {
            &&& *final(dragging) == *old(dragging)
            &&& final(map).windows_view() == old(map).windows_view()
            &&& r.focus is None
            &&& r.activations@.len() == 0
        },
        pressed && !grabbed && under is None ==> {
            &&& *final(dragging)
            &&& final(map).windows_view() == old(map).windows_view()
            &&& r.focus is None
            &&& r.activations@.len() == 0
        },
        pressed && !grabbed && under is Some ==> {
            let (i, surface) = under->0;
            let old_windows = old(map).windows_view();
            &&& *final(dragging) == *old(dragging)
            &&& final(map).windows_view() == seq![old_windows[i as int]] + old_windows.remove(
                i as int,
            )
            &&& r.focus == Some(surface)
            &&& r.activations@.len() == old_windows.len()
            &&& forall|k: int|
                0 <= k < r.activations@.len() - 1 ==> #[trigger] r.activations@[k] == (
                    old_windows.remove(i as int)[k].toplevel,
                    false,
                )
            &&& r.activations@[r.activations@.len() - 1] == (old_windows[i as int].toplevel, true)
        },
{
    let code = button_code(button);
    if !pressed {
        *dragging = false;
        return ButtonOutcome { code, pressed, focus: None, activations: Vec::new() };
    }
    if grabbed {
        return ButtonOutcome { code, pressed, focus: None, activations: Vec::new() };
    }
    match under {
        None => {
            *dragging = true;
            ButtonOutcome { code, pressed, focus: None, activations: Vec::new() }
        },
        Some((i, surface)) => {
            let activations = map.bring_to_top(i);
            ButtonOutcome { code, pressed, focus: Some(surface), activations }
        },
    }
}

/// What the pointer shows.
#[derive(Clone, Copy, PartialEq, Eq, Structural, Debug)]
pub enum CursorStatus {
    /// Nothing.
    Hidden,
    /// The compositor's own cursor image.
    Default,
    /// A surface a client set, by id.
    Surface(u64),
}

/// Before the cursor is drawn: a client surface that is no longer alive
/// gives way to the default image. Returns whether the compositor's own
/// image is to be drawn, that is whether no client surface shows.
pub fn refresh_cursor(status: &mut CursorStatus, surface_alive: bool) -> (visible: bool)
    ensures
        *final(status) == (if *old(status) is Surface && !surface_alive {
            CursorStatus::Default
        } else {
            *old(status)
        }),
        visible == !(*final(status) is Surface),
{
    if let CursorStatus::Surface(_) = *status {
        if !surface_alive {
            *status = CursorStatus::Default;
        }
    }
    match *status {
        CursorStatus::Surface(_) => false,
        _ => true,
    }
}

/// Where a cursor surface is drawn: its hotspot on the pointer location.
/// A surface without the cursor role has no hotspot and is drawn at the
/// location itself.
pub fn cursor_surface_location(location: Point, hotspot: Option<Point>) -> (r: Point)
    requires
        hotspot matches Some(h) ==> fits_i32(location.x - h.x) && fits_i32(location.y - h.y),
    ensures
        r == (match hotspot {
            Some(h) => Point { x: (location.x - h.x) as i32, y: (location.y - h.y) as i32 },
            None => location,
        }),
{
    match hotspot {
        Some(h) => Point { x: location.x - h.x, y: location.y - h.y },
        None => location,
    }
}

/// The code of the left button.
pub const BTN_LEFT: u32 = 0x110;

/// Whether a grab held with the left button ends, given the buttons still
/// pressed after a button event: it ends once the left button is up.
pub fn left_grab_released(pressed: &Vec<u32>) -> (r: bool)
    ensures
        r == !pressed@.contains(BTN_LEFT),
{
    let mut i: usize = 0;
    while i < pressed.len()
        invariant
            i <= pressed@.len(),
            forall|j: int| 0 <= j < i ==> pressed@[j] != BTN_LEFT,
        decreases pressed.len() - i,
    {
        if pressed[i] == BTN_LEFT {
            assert(pressed@.contains(BTN_LEFT));
            return false;
        }
        i = i + 1;
    }
    true
}

/// Whether a grab ends that lasts while any button is pressed: it ends
/// once none is.
pub fn grab_released(pressed: &Vec<u32>) -> (r: bool)
    ensures
        r == (pressed@.len() == 0),
{
    pressed.len() == 0
}

} // verus!

//! Windows of the host system that display the compositor's outputs: how
//! their events become the compositor's input events.

use vstd::prelude::*;
use crate::geometry::Size;

verus! {

/// The host window was closed.
#[derive(Clone, Copy, PartialEq, Eq, Structural, Debug)]
pub enum WinitHostError {
    WindowClosed,
}

/// The engine's host window was closed.
#[derive(Clone, Copy, PartialEq, Eq, Structural, Debug)]
pub enum WinitEngineBackendError {
    WindowClosed,
}

impl WinitHostError {
    /// How the error reads: the name of its variant.
    pub fn description(&self) -> (r: &'static str)
        ensures
            r@ == "WindowClosed"@,
    {
        "WindowClosed"
    }
}

impl WinitEngineBackendError {
    /// How the error reads: the name of its variant.
    pub fn description(&self) -> (r: &'static str)
        ensures
            r@ == "WindowClosed"@,
    {
        "WindowClosed"
    }
}

/// An input device of the host.
#[derive(Clone, Copy, PartialEq, Eq, Structural, Debug)]
pub struct WinitInput {}

/// The phase of a touch point.
#[derive(Clone, Copy, PartialEq, Eq, Structural, Debug)]
pub enum TouchPhase {
    Started,
    Moved,
    Ended,
    Cancelled,
}

/// An event the host delivers to one of its windows, with the parts the
/// compositor decides on. Positions, scroll deltas and scale factors are
/// carried alongside by the caller.
#[derive(Clone, Copy, PartialEq, Eq, Structural, Debug)]
pub enum HostWindowEvent {
    /// The window's inner size changed to this physical size.
    Resized { width: u32, height: u32 },
    Focused(bool),
    /// The scale factor changed; the window's new inner physical size.
    ScaleFactorChanged { width: u32, height: u32 },
    KeyboardInput { scancode: u32, pressed: bool },
    CursorMoved,
    MouseWheel,
    MouseInput { pressed: bool },
    Touch { phase: TouchPhase, id: u64 },
    CloseRequested,
    Destroyed,
    /// Any other event, which is ignored.
    Other,
}

/// An input event for the compositor, stamped with the milliseconds since
/// the host started.
#[derive(Clone, Copy, PartialEq, Eq, Structural, Debug)]
pub enum HostInput {
    DeviceAdded,
    Resized { size: Size },
    Focus(bool),
    /// `count` is the number of keys held after this event.
    Keyboard { time: u32, key: u32, count: u32, pressed: bool },
    PointerMotionAbsolute { time: u32 },
    PointerAxis { time: u32 },
    PointerButton { time: u32, pressed: bool, is_x11: bool },
    TouchDown { time: u32, id: u64 },
    TouchMotion { time: u32, id: u64 },
    TouchUp { time: u32, id: u64 },
    TouchCancel { time: u32, id: u64 },
    DeviceRemoved,
}

/// The milliseconds in a duration of `secs` seconds and `subsec_nanos`
/// nanoseconds, kept to 32 bits.
pub open spec fn spec_event_time(secs: u64, subsec_nanos: u32) -> u32 {
    (1000 * secs + subsec_nanos / 1_000_000) as u32
}

/// The timestamp of an event that happened `secs` seconds and
/// `subsec_nanos` nanoseconds after the host started: whole milliseconds,
/// wrapping at 32 bits.
pub fn event_time(secs: u64, subsec_nanos: u32) -> (r: u32)
    requires
        1000 * secs + subsec_nanos / 1_000_000 <= u64::MAX,
    ensures
        r == spec_event_time(secs, subsec_nanos),
{
    let nanos = subsec_nanos as u64;
    ((1000 * secs) + (nanos / 1_000_000)) as u32
}

/// The state the compositor keeps of a host window.
#[derive(Clone, Copy, PartialEq, Eq, Structural, Debug)]
pub struct HostWindow {
    /// Count of currently pressed keys.
    pub rollover: u32,
    /// Whether the window is closing.
    pub closing: bool,
    /// Is this window hosted under X11 (as opposed to a Wayland session)?
    pub is_x11: bool,
    /// The current physical size.
    pub size: Size,
    /// A new size to apply on the next render.
    pub resized: Option<Size>,
    /// Whether the window's rendering state is set up; events for a window
    /// that is not are ignored.
    pub initialized: bool,
}

/// A physical size given as unsigned integers, read as `i32` the way the
/// host code casts it.
pub open spec fn physical_size(width: u32, height: u32) -> Size {
    Size { w: width as i32, h: height as i32 }
}

/// The events a host window event turns into.
pub open spec fn spec_inputs(w: HostWindow, time: u32, event: HostWindowEvent) -> Seq<HostInput> {
    if !w.initialized {
        Seq::empty()
    } else {
        spec_initialized_inputs(w, time, event)
    }
}

/// The events a host window event turns into, once the window is set up.
pub open spec fn spec_initialized_inputs(w: HostWindow, time: u32, event: HostWindowEvent) -> Seq<
    HostInput,
> {
    match event {
        HostWindowEvent::Resized { width, height } => seq![
            HostInput::Resized { size: physical_size(width, height) },
        ],
        HostWindowEvent::Focused(f) => seq![HostInput::Focus(f)],
        HostWindowEvent::ScaleFactorChanged { width, height } => seq![
            HostInput::Resized { size: physical_size(width, height) },
        ],
        HostWindowEvent::KeyboardInput { scancode, pressed } => seq![
            HostInput::Keyboard {
                time,
                key: scancode,
                count: spec_rollover_after(w.rollover, pressed),
                pressed,
            },
        ],
        HostWindowEvent::CursorMoved => seq![HostInput::PointerMotionAbsolute { time }],
        HostWindowEvent::MouseWheel => seq![HostInput::PointerAxis { time }],
        HostWindowEvent::MouseInput { pressed } => seq![
            HostInput::PointerButton { time, pressed, is_x11: w.is_x11 },
        ],
        HostWindowEvent::Touch { phase, id } => match phase {
            TouchPhase::Started => seq![HostInput::TouchDown { time, id }],
            TouchPhase::Moved => seq![HostInput::TouchMotion { time, id }],
            TouchPhase::Ended => seq![
                HostInput::TouchMotion { time, id },
                HostInput::TouchUp { time, id },
            ],
            TouchPhase::Cancelled => seq![HostInput::TouchCancel { time, id }],
        },
        HostWindowEvent::CloseRequested => seq![HostInput::DeviceRemoved],
        HostWindowEvent::Destroyed => seq![HostInput::DeviceRemoved],
        HostWindowEvent::Other => Seq::empty(),
    }
}

/// The number of held keys after a key event: one more on a press, one
/// less on a release but never below zero.
pub open spec fn spec_rollover_after(rollover: u32, pressed: bool) -> u32 {
    if pressed {
        (rollover + 1) as u32
    } else if rollover == 0 {
        0
    } else {
        (rollover - 1) as u32
    }
}

/// The window state after an event.
pub open spec fn spec_window_after(w: HostWindow, event: HostWindowEvent) -> HostWindow {
    if !w.initialized {
        w
    } else {
        spec_initialized_window_after(w, event)
    }
}

/// The window state after an event, once the window is set up.
pub open spec fn spec_initialized_window_after(w: HostWindow, event: HostWindowEvent) -> HostWindow {
    match event {
        HostWindowEvent::Resized { width, height } => HostWindow {
            size: physical_size(width, height),
            resized: Some(physical_size(width, height)),
            ..w
        },
        HostWindowEvent::ScaleFactorChanged { width, height } => HostWindow {
            resized: Some(physical_size(width, height)),
            ..w
        },
        HostWindowEvent::KeyboardInput { pressed, .. } => HostWindow {
            rollover: spec_rollover_after(w.rollover, pressed),
            ..w
        },
        HostWindowEvent::CloseRequested => HostWindow { closing: true, ..w },
        HostWindowEvent::Destroyed => HostWindow { closing: true, ..w },
        _ => w,
    }
}

impl HostWindow {
    /// A new window of the given physical size, its rendering state set up.
    pub fn new(size: Size, is_x11: bool) -> (r: HostWindow)
        ensures
            r == (HostWindow {
                rollover: 0,
                closing: false,
                is_x11,
                size,
                resized: None,
                initialized: true,
            }),
    {
        HostWindow { rollover: 0, closing: false, is_x11, size, resized: None, initialized: true }
    }

    /// A new window of the given physical size whose rendering state is
    /// set up later, by `init`.
    pub fn new_uninitialized(size: Size, is_x11: bool) -> (r: HostWindow)
        ensures
            r == (HostWindow {
                rollover: 0,
                closing: false,
                is_x11,
                size,
                resized: None,
                initialized: false,
            }),
    {
        HostWindow { rollover: 0, closing: false, is_x11, size, resized: None, initialized: false }
    }

    /// Sets up the window's rendering state; a window set up already stays
    /// as it is. Returns whether it was set up already.
    pub fn init(&mut self) -> (r: bool)
        ensures
            r == old(self).initialized,
            *final(self) == (HostWindow { initialized: true, ..*old(self) }),
    {
        let was = self.initialized;
        self.initialized = true;
        was
    }

    /// Handles an event delivered to this window at `time`: updates the
    /// window and returns the input events for the compositor.
    pub fn dispatch(&mut self, time: u32, event: HostWindowEvent) -> (r: Vec<HostInput>)
        requires
            event matches HostWindowEvent::KeyboardInput { pressed, .. } ==> (pressed
                ==> old(self).rollover < u32::MAX),
        ensures
            r@ == spec_inputs(*old(self), time, event),
            *final(self) == spec_window_after(*old(self), event),
    {
        let mut out: Vec<HostInput> = Vec::new();
        if !self.initialized {
            assert(out@ =~= spec_inputs(*old(self), time, event));
            return out;
        }
        match event {
            HostWindowEvent::Resized { width, height } => {
                let size = Size { w: width as i32, h: height as i32 };
                self.size = size;
                self.resized = Some(size);
                out.push(HostInput::Resized { size });
            },
            HostWindowEvent::Focused(focus) => {
                out.push(HostInput::Focus(focus));
            },
            HostWindowEvent::ScaleFactorChanged { width, height } => {
                let size = Size { w: width as i32, h: height as i32 };
                self.resized = Some(size);
                out.push(HostInput::Resized { size });
            },
            HostWindowEvent::KeyboardInput { scancode, pressed } => {
                if pressed {
                    self.rollover = self.rollover + 1;
                } else {
                    self.rollover = match self.rollover.checked_sub(1) {
                        Some(r) => r,
                        None => 0,
                    };
                }
                out.push(
                    HostInput::Keyboard { time, key: scancode, count: self.rollover, pressed },
                );
            },
            HostWindowEvent::CursorMoved => {
                out.push(HostInput::PointerMotionAbsolute { time });
            },
            HostWindowEvent::MouseWheel => {
                out.push(HostInput::PointerAxis { time });
            },
            HostWindowEvent::MouseInput { pressed } => {
                out.push(HostInput::PointerButton { time, pressed, is_x11: self.is_x11 });
            },
            HostWindowEvent::Touch { phase, id } => {
                match phase {
                    TouchPhase::Started => {
                        out.push(HostInput::TouchDown { time, id });
                    },
                    TouchPhase::Moved => {
                        out.push(HostInput::TouchMotion { time, id });
                    },
                    TouchPhase::Ended => {
                        out.push(HostInput::TouchMotion { time, id });
                        out.push(HostInput::TouchUp { time, id });
                    },
                    TouchPhase::Cancelled => {
                        out.push(HostInput::TouchCancel { time, id });
                    },
                }
            },
            HostWindowEvent::CloseRequested | HostWindowEvent::Destroyed => {
                out.push(HostInput::DeviceRemoved);
                self.closing = true;
            },
            HostWindowEvent::Other => {},
        }
        assert(out@ =~= spec_inputs(*old(self), time, event));
        out
    }
}

/// The host windows by id, and whether the host has started. No id names
/// two windows.
pub struct HostWindows {
    started: bool,
    windows: Vec<(u64, HostWindow)>,
}

/// No id names two windows.
pub open spec fn ids_unique(ws: Seq<(u64, HostWindow)>) -> bool {
    forall|i: int, j: int| 0 <= i < j < ws.len() ==> ws[i].0 != ws[j].0
}

/// Index of the first window with `id`.
pub open spec fn host_window_index(ws: Seq<(u64, HostWindow)>, id: u64) -> Option<int> {
    if exists|i: int| 0 <= i < ws.len() && ws[i].0 == id && forall|j: int| 0 <= j < i ==> ws[j].0 != id {
        Some(
            choose|i: int|
                0 <= i < ws.len() && ws[i].0 == id && forall|j: int| 0 <= j < i ==> ws[j].0 != id,
        )
    } else {
        None
    }
}

impl HostWindows {
    #[verifier::type_invariant]
    spec fn inv(self) -> bool {
        ids_unique(self.windows@)
    }

    /// No window, not started.
    pub fn new() -> (r: HostWindows)
        ensures
            !r.is_started(),
            r.windows_view() == Seq::<(u64, HostWindow)>::empty(),
            ids_unique(r.windows_view()),
    {
        HostWindows { started: false, windows: Vec::new() }
    }

    /// The windows with their ids.
    pub closed spec fn windows_view(&self) -> Seq<(u64, HostWindow)> {
        self.windows@
    }

    /// Whether the host has started.
    pub closed spec fn is_started(&self) -> bool {
        self.started
    }

    /// Registers a window under `id`, in place of the window that had that
    /// id if there was one.
    pub fn window_add(&mut self, id: u64, window: HostWindow)
        ensures
            final(self).windows_view() == match host_window_index(old(self).windows_view(), id) {
                Some(i) => old(self).windows_view().update(i, (id, window)),
                None => old(self).windows_view().push((id, window)),
            },
            final(self).is_started() == old(self).is_started(),
            ids_unique(final(self).windows_view()),
    {
        proof {
            use_type_invariant(&*self);
        }
        let ghost ws = self.windows@;
        match find_window(&self.windows, id) {
            Some(i) => {
                let mut windows: Vec<(u64, HostWindow)> = Vec::new();
                std::mem::swap(&mut windows, &mut self.windows);
                windows.set(i, (id, window));
                proof {
                    assert forall|a: int, b: int|
                        0 <= a < b < windows@.len() implies windows@[a].0 != windows@[b].0 by {
                        assert(ws[a].0 != ws[b].0);
                    }
                }
                self.windows = windows;
            },
            None => {
                let mut windows: Vec<(u64, HostWindow)> = Vec::new();
                std::mem::swap(&mut windows, &mut self.windows);
                windows.push((id, window));
                proof {
                    assert forall|a: int, b: int|
                        0 <= a < b < windows@.len() implies windows@[a].0 != windows@[b].0 by {
                        if b == ws.len() {
                            if ws[a].0 == id {
                                lemma_first_with_id(ws, id, a);
                            }
                        } else {
                            assert(ws[a].0 != ws[b].0);
                        }
                    }
                }
                self.windows = windows;
            },
        }
    }

    /// The first dispatch announces the host's virtual input device.
    pub fn start(&mut self) -> (r: Option<HostInput>)
        ensures
            r == (if old(self).is_started() {
                None
            } else {
                Some(HostInput::DeviceAdded)
            }),
            final(self).is_started(),
            final(self).windows_view() == old(self).windows_view(),
    {
        proof {
            use_type_invariant(&*self);
        }
        if self.started {
            None
        } else {
            self.started = true;
            Some(HostInput::DeviceAdded)
        }
    }

    /// Routes an event to the window `id`. Returns `None` for an unknown
    /// window; else the window's input events and whether the window
    /// closed, in which case it is dropped.
    pub fn window_event(&mut self, id: u64, time: u32, event: HostWindowEvent) -> (r: Option<
        (Vec<HostInput>, bool),
    >)
        requires
            match host_window_index(old(self).windows_view(), id) {
                Some(i) => {
                    event matches HostWindowEvent::KeyboardInput { pressed, .. } ==> (pressed
                        ==> old(self).windows_view()[i].1.rollover < u32::MAX)
                },
                None => true,
            },
        ensures
            final(self).is_started() == old(self).is_started(),
            ids_unique(final(self).windows_view()),
            match host_window_index(old(self).windows_view(), id) {
                None => r is None && final(self).windows_view() == old(self).windows_view(),
                Some(i) => {
                    let after = spec_window_after(old(self).windows_view()[i].1, event);
                    &&& r matches Some(out) && out.0@ == spec_inputs(
                        old(self).windows_view()[i].1,
                        time,
                        event,
                    ) && out.1 == after.closing
                    &&& final(self).windows_view() == if after.closing {
                        old(self).windows_view().remove(i)
                    } else {
                        old(self).windows_view().update(i, (id, after))
                    }
                },
            },
    {
        proof {
            use_type_invariant(&*self);
        }
        let ghost ws = self.windows@;
        match find_window(&self.windows, id) {
            None => None,
            Some(i) => {
                let mut window = self.windows[i].1;
                let out = window.dispatch(time, event);
                let closing = window.closing;
                let mut windows: Vec<(u64, HostWindow)> = Vec::new();
                std::mem::swap(&mut windows, &mut self.windows);
                if closing {
                    windows.remove(i);
                    proof {
                        assert forall|a: int, b: int|
                            0 <= a < b < windows@.len() implies windows@[a].0 != windows@[b].0 by {
                            let a0 = if a < i { a } else { a + 1 };
                            let b0 = if b < i { b } else { b + 1 };
                            assert(windows@[a] == ws[a0]);
                            assert(windows@[b] == ws[b0]);
                            assert(ws[a0].0 != ws[b0].0);
                        }
                    }
                } else {
                    windows.set(i, (id, window));
                    proof {
                        assert forall|a: int, b: int|
                            0 <= a < b < windows@.len() implies windows@[a].0 != windows@[b].0 by {
                            assert(ws[a].0 != ws[b].0);
                        }
                    }
                }
                self.windows = windows;
                Some((out, closing))
            },
        }
    }
}

/// A window with `id` at `a` means the first window with `id` comes no later.
proof fn lemma_first_with_id(ws: Seq<(u64, HostWindow)>, id: u64, a: int)
    requires
        0 <= a < ws.len(),
        ws[a].0 == id,
    ensures
        exists|k: int| 0 <= k <= a && ws[k].0 == id && forall|j: int| 0 <= j < k ==> ws[j].0 != id,
    decreases a,
{
    if exists|j: int| 0 <= j < a && ws[j].0 == id {
        let j = choose|j: int| 0 <= j < a && ws[j].0 == id;
        lemma_first_with_id(ws, id, j);
    } else {
        assert(0 <= a <= a && ws[a].0 == id && forall|j: int| 0 <= j < a ==> ws[j].0 != id);
    }
}

/// The position of the first window with `id`.
fn find_window(ws: &Vec<(u64, HostWindow)>, id: u64) -> (r: Option<usize>)
    ensures
        match r {
            Some(i) => host_window_index(ws@, id) == Some(i as int),
            None => host_window_index(ws@, id) is None,
        },
{
    let mut i: usize = 0;
    while i < ws.len()
        invariant
            i <= ws@.len(),
            forall|j: int| 0 <= j < i ==> ws@[j].0 != id,
        decreases ws.len() - i,
    {
        if ws[i].0 == id {
            proof {
                let k = choose|k: int|
                    0 <= k < ws@.len() && ws@[k].0 == id && forall|j: int|
                        0 <= j < k ==> ws@[j].0 != id;
                assert(0 <= k < ws@.len() && ws@[k].0 == id && forall|j: int|
                    0 <= j < k ==> ws@[j].0 != id);
                if k < i {
                    assert(ws@[k].0 != id);
                } else if i < k {
                    assert(ws@[i as int].0 != id);
                }
            }
            return Some(i);
        }
        i = i + 1;
    }
    None
}

/// A key pressed and released on a host window leaves the count of held
/// keys where it was; a release with no key held keeps it at zero.
pub proof fn lemma_press_release_restores_rollover(rollover: u32)
    requires
        rollover < u32::MAX,
    ensures
        spec_rollover_after(spec_rollover_after(rollover, true), false) == rollover,
        spec_rollover_after(0, false) == 0,
{
}

/// A window whose rendering state is not set up ignores every event: it
/// emits nothing and stays as it is.
pub proof fn lemma_uninitialized_window_ignores_events(
    w: HostWindow,
    time: u32,
    event: HostWindowEvent,
)
    requires
        !w.initialized,
    ensures
        spec_inputs(w, time, event).len() == 0,
        spec_window_after(w, event) == w,
{
}

/// Once set up, keyboard events report the count of keys held after them,
/// and a window closes exactly on a close request or on its destruction, which is
/// reported as the removal of the host's input device.
pub proof fn lemma_window_closes_on_close_events(w: HostWindow, time: u32, event: HostWindowEvent)
    requires
        w.initialized,
        !w.closing,
    ensures
        spec_window_after(w, event).closing <==> (event is CloseRequested || event is Destroyed),
        (event is CloseRequested || event is Destroyed) ==> spec_inputs(w, time, event) == seq![
            HostInput::DeviceRemoved,
        ],
        event matches HostWindowEvent::KeyboardInput { pressed, .. } ==> spec_inputs(
            w,
            time,
            event,
        )[0] matches HostInput::Keyboard { count, .. } && count == spec_window_after(
            w,
            event,
        ).rollover,
{
}

/// Events a host window does not handle change nothing and reach no one.
pub proof fn lemma_other_events_ignored(w: HostWindow, time: u32)
    ensures
        spec_inputs(w, time, HostWindowEvent::Other) == Seq::<HostInput>::empty(),
        spec_window_after(w, HostWindowEvent::Other) == w,
{
}

} // verus!

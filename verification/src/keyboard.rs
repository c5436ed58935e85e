//! Compositor keyboard shortcuts, and the keys they keep from clients.

use vstd::prelude::*;

verus! {

/// Keysym of BackSpace.
pub const KEY_BACKSPACE: u32 = 0xff08;

/// Keysym of Return.
pub const KEY_RETURN: u32 = 0xff0d;

/// Keysym of the digit 1.
pub const KEY_1: u32 = 0x0031;

/// Keysym of the digit 9.
pub const KEY_9: u32 = 0x0039;

/// Keysym of the capital letter M.
pub const KEY_M: u32 = 0x004d;

/// Keysym of the capital letter P.
pub const KEY_P: u32 = 0x0050;

/// Keysym of the small letter q.
pub const KEY_Q: u32 = 0x0071;

/// Keysym of the switch to the first virtual terminal.
pub const KEY_SWITCH_VT_1: u32 = 0x1008FE01;

/// Keysym of the switch to the twelfth virtual terminal.
pub const KEY_SWITCH_VT_12: u32 = 0x1008FE0C;

/// The modifiers held while a key is pressed.
#[derive(Clone, Copy, PartialEq, Eq, Structural, Debug)]
pub struct Modifiers {
    pub ctrl: bool,
    pub alt: bool,
    pub shift: bool,
    pub caps_lock: bool,
    pub logo: bool,
    pub num_lock: bool,
}

/// Possible results of a keyboard action
pub enum KeyAction {
    /// Quit the compositor
    Quit,
    /// Trigger a vt-switch
    VtSwitch(i32),
    /// run a command
    Run(String),
    /// Switch the current screen
    Screen(usize),
    ScaleUp,
    ScaleDown,
    /// Forward the key to the client
    Forward,
    /// Do nothing more
    Nothing,
}

/// Whether `a` is the action a press of `keysym` with `m` held triggers:
/// ctrl+alt+BackSpace and logo+q quit, the VT keys switch virtual terminal,
/// logo+Return runs a terminal, logo+1..9 switch screen, logo+shift+M and
/// logo+shift+P scale down and up; every other key goes to the client.
pub open spec fn is_pressed_action(a: KeyAction, m: Modifiers, keysym: u32) -> bool {
    if (m.ctrl && m.alt && keysym == KEY_BACKSPACE) || (m.logo && keysym == KEY_Q) {
        a is Quit
    } else if KEY_SWITCH_VT_1 <= keysym <= KEY_SWITCH_VT_12 {
        a == KeyAction::VtSwitch((keysym - KEY_SWITCH_VT_1 + 1) as i32)
    } else if m.logo && keysym == KEY_RETURN {
        a matches KeyAction::Run(cmd) && cmd@ == "weston-terminal"@
    } else if m.logo && KEY_1 <= keysym <= KEY_9 {
        a == KeyAction::Screen((keysym - KEY_1) as usize)
    } else if m.logo && m.shift && keysym == KEY_M {
        a is ScaleDown
    } else if m.logo && m.shift && keysym == KEY_P {
        a is ScaleUp
    } else {
        a is Forward
    }
}

/// Whether a press of `keysym` with `m` held triggers a compositor action,
/// so that it is kept from the client.
pub open spec fn is_shortcut(m: Modifiers, keysym: u32) -> bool {
    (m.ctrl && m.alt && keysym == KEY_BACKSPACE) || (m.logo && keysym == KEY_Q) || (
    KEY_SWITCH_VT_1 <= keysym <= KEY_SWITCH_VT_12) || (m.logo && keysym == KEY_RETURN) || (m.logo
        && KEY_1 <= keysym <= KEY_9) || (m.logo && m.shift && keysym == KEY_M) || (m.logo
        && m.shift && keysym == KEY_P)
}

/// The action a press of `keysym` with `modifiers` held triggers.
pub fn pressed_action(modifiers: Modifiers, keysym: u32) -> (r: KeyAction)
    ensures
        is_pressed_action(r, modifiers, keysym),
        r is Forward <==> !is_shortcut(modifiers, keysym),
{
    if modifiers.ctrl && modifiers.alt && keysym == KEY_BACKSPACE || modifiers.logo && keysym
        == KEY_Q {
        KeyAction::Quit
    } else if KEY_SWITCH_VT_1 <= keysym && keysym <= KEY_SWITCH_VT_12 {
        KeyAction::VtSwitch((keysym - KEY_SWITCH_VT_1 + 1) as i32)
    } else if modifiers.logo && keysym == KEY_RETURN {
        let cmd = "weston-terminal".to_owned();
        KeyAction::Run(cmd)
    } else if modifiers.logo && keysym >= KEY_1 && keysym <= KEY_9 {
        KeyAction::Screen((keysym - KEY_1) as usize)
    } else if modifiers.logo && modifiers.shift && keysym == KEY_M {
        KeyAction::ScaleDown
    } else if modifiers.logo && modifiers.shift && keysym == KEY_P {
        KeyAction::ScaleUp
    } else {
        KeyAction::Forward
    }
}

/// The keys whose press triggered a compositor action and whose release is
/// therefore kept from the client too.
pub struct Hotkeys {
    pub suppressed_keys: Vec<u32>,
}

/// Every keysym but `keysym`.
pub open spec fn other_than(keysym: u32) -> spec_fn(u32) -> bool {
    |k: u32| k != keysym
}

/// The suppressed keys after a key event: a shortcut press adds its keysym,
/// the release of a suppressed key removes every copy of it.
pub open spec fn suppressed_after(
    suppressed: Seq<u32>,
    m: Modifiers,
    keysym: u32,
    pressed: bool,
) -> Seq<u32> {
    if pressed {
        if is_shortcut(m, keysym) {
            suppressed.push(keysym)
        } else {
            suppressed
        }
    } else {
        suppressed.filter(other_than(keysym))
    }
}

/// Whether a key event goes on to the client: a press unless it is a
/// shortcut, a release unless its press was kept.
pub open spec fn forwarded(suppressed: Seq<u32>, m: Modifiers, keysym: u32, pressed: bool) -> bool {
    if pressed {
        !is_shortcut(m, keysym)
    } else {
        !suppressed.contains(keysym)
    }
}

impl Hotkeys {
    /// No key suppressed.
    pub fn new() -> (r: Hotkeys)
        ensures
            r.suppressed_keys@ == Seq::<u32>::empty(),
    {
        Hotkeys { suppressed_keys: Vec::new() }
    }

    /// Filters a key event before it reaches the client: returns the
    /// compositor action it triggers (`KeyAction::Nothing` for a release) and
    /// whether to forward it to the client.
    pub fn filter(&mut self, modifiers: Modifiers, keysym: u32, pressed: bool) -> (r: (
        KeyAction,
        bool,
    ))
        ensures
            pressed ==> is_pressed_action(r.0, modifiers, keysym),
            !pressed ==> r.0 is Nothing,
            r.1 == forwarded(old(self).suppressed_keys@, modifiers, keysym, pressed),
            final(self).suppressed_keys@ == suppressed_after(
                old(self).suppressed_keys@,
                modifiers,
                keysym,
                pressed,
            ),
    {
        if pressed {
            let action = pressed_action(modifiers, keysym);
            let forward = match action {
                KeyAction::Forward => true,
                _ => false,
            };
            if !forward {
                self.suppressed_keys.push(keysym);
            }
            (action, forward)
        } else {
            let suppressed = self.contains(keysym);
            if suppressed {
                self.remove_all(keysym);
            }
            proof {
                if !suppressed {
                    assert(self.suppressed_keys@.filter(other_than(keysym))
                        =~= self.suppressed_keys@) by {
                        lemma_filter_keeps_all(self.suppressed_keys@, keysym);
                    }
                }
            }
            (KeyAction::Nothing, !suppressed)
        }
    }

    fn contains(&self, keysym: u32) -> (r: bool)
        ensures
            r == self.suppressed_keys@.contains(keysym),
    {
        let mut i: usize = 0;
        while i < self.suppressed_keys.len()
            invariant
                i <= self.suppressed_keys@.len(),
                forall|j: int| 0 <= j < i ==> self.suppressed_keys@[j] != keysym,
            decreases self.suppressed_keys.len() - i,
        {
            if self.suppressed_keys[i] == keysym {
                return true;
            }
            i = i + 1;
        }
        false
    }

    fn remove_all(&mut self, keysym: u32)
        ensures
            final(self).suppressed_keys@ == old(self).suppressed_keys@.filter(other_than(keysym)),
    {
        let mut kept: Vec<u32> = Vec::new();
        let mut i: usize = 0;
        while i < self.suppressed_keys.len()
            invariant
                i <= self.suppressed_keys@.len(),
                kept@ == self.suppressed_keys@.take(i as int).filter(other_than(keysym)),
            decreases self.suppressed_keys.len() - i,
        {
            let k = self.suppressed_keys[i];
            proof {
                let s = self.suppressed_keys@;
                assert(s.take(i + 1).drop_last() =~= s.take(i as int));
                reveal_with_fuel(Seq::filter, 1);
            }
            if k != keysym {
                kept.push(k);
            }
            i = i + 1;
        }
        assert(self.suppressed_keys@.take(i as int) =~= self.suppressed_keys@);
        self.suppressed_keys = kept;
    }
}

proof fn lemma_filter_keeps_all(s: Seq<u32>, keysym: u32)
    requires
        !s.contains(keysym),
    ensures
        s.filter(other_than(keysym)) == s,
    decreases s.len(),
{
    reveal_with_fuel(Seq::filter, 1);
    if s.len() > 0 {
        assert(!s.drop_last().contains(keysym)) by {
            if s.drop_last().contains(keysym) {
                let j = choose|j: int| 0 <= j < s.drop_last().len() && s.drop_last()[j] == keysym;
                assert(s[j] == keysym);
            }
        }
        lemma_filter_keeps_all(s.drop_last(), keysym);
        assert(s.last() != keysym) by {
            assert(s[s.len() - 1] == s.last());
        }
    }
    assert(s.filter(other_than(keysym)) =~= s);
}

/// A shortcut never reaches the client: its press is kept, and so is its
/// release, whatever modifiers are held by then; once released, the key
/// is no longer remembered as suppressed.
pub proof fn lemma_shortcut_swallowed(
    suppressed: Seq<u32>,
    pressed_with: Modifiers,
    released_with: Modifiers,
    keysym: u32,
)
    requires
        is_shortcut(pressed_with, keysym),
    ensures
        !forwarded(suppressed, pressed_with, keysym, true),
        !forwarded(
            suppressed_after(suppressed, pressed_with, keysym, true),
            released_with,
            keysym,
            false,
        ),
        !suppressed_after(
            suppressed_after(suppressed, pressed_with, keysym, true),
            released_with,
            keysym,
            false,
        ).contains(keysym),
{
    let after_press = suppressed.push(keysym);
    assert(after_press[after_press.len() - 1] == keysym);
    let after_release = after_press.filter(other_than(keysym));
    if after_release.contains(keysym) {
        let j = choose|j: int| 0 <= j < after_release.len() && after_release[j] == keysym;
        assert(other_than(keysym)(after_release[j]));
    }
}

/// A key that is not a shortcut and not held as one reaches the client on
/// its press and on its release, and leaves the suppressed keys as they
/// were.
pub proof fn lemma_plain_key_forwarded(
    suppressed: Seq<u32>,
    pressed_with: Modifiers,
    released_with: Modifiers,
    keysym: u32,
)
    requires
        !is_shortcut(pressed_with, keysym),
        !suppressed.contains(keysym),
    ensures
        forwarded(suppressed, pressed_with, keysym, true),
        suppressed_after(suppressed, pressed_with, keysym, true) == suppressed,
        forwarded(suppressed, released_with, keysym, false),
        suppressed_after(suppressed, released_with, keysym, false) == suppressed,
{
    lemma_filter_keeps_all(suppressed, keysym);
}

/// Shortcuts need ctrl or logo: a key pressed with neither held goes to
/// the client, unless it is one of the VT switch keys (keysyms 0x1008FE01
/// to 0x1008FE0C). In particular alt+BackSpace alone is forwarded.
pub proof fn lemma_plain_presses_are_forwarded(a: KeyAction, m: Modifiers, keysym: u32)
    requires
        !m.ctrl,
        !m.logo,
        !(0x1008FE01 <= keysym <= 0x1008FE0C),
    ensures
        !is_shortcut(m, keysym),
        is_pressed_action(a, m, keysym) ==> a is Forward,
{
}

/// The compositor quits only on ctrl+alt+BackSpace (keysym 0xff08) or
/// logo+q (keysym 0x71), and those two always quit.
pub proof fn lemma_quit_keys(a: KeyAction, m: Modifiers, keysym: u32)
    requires
        is_pressed_action(a, m, keysym),
    ensures
        a is Quit <==> ((m.ctrl && m.alt && keysym == 0xff08) || (m.logo && keysym == 0x71)),
{
}

/// What each shortcut does: the VT switch keys (keysyms 0x1008FE01 to
/// 0x1008FE0C) switch to the terminal of their number, logo+Return
/// (0xff0d) runs a terminal, logo with a digit 1 to 9 (0x31 to 0x39)
/// switches to the screen counted from zero, and logo+shift with M (0x4d)
/// or P (0x50) scales the output down or up.
pub proof fn lemma_shortcut_actions(a: KeyAction, m: Modifiers, keysym: u32)
    requires
        is_pressed_action(a, m, keysym),
    ensures
        0x1008FE01 <= keysym <= 0x1008FE0C ==> a == KeyAction::VtSwitch(
            (keysym - 0x1008FE00) as i32,
        ),
        m.logo && keysym == 0xff0d ==> (a matches KeyAction::Run(cmd) && cmd@
            == "weston-terminal"@),
        m.logo && 0x31 <= keysym <= 0x39 ==> a == KeyAction::Screen((keysym - 0x31) as usize),
        m.logo && m.shift && keysym == 0x4d ==> a is ScaleDown,
        m.logo && m.shift && keysym == 0x50 ==> a is ScaleUp,
        a is Forward <==> !is_shortcut(m, keysym),
{
}

} // verus!

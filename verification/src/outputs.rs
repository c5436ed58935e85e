//! The outputs of a DRM device: which CRTC drives each connected connector,
//! what the outputs are called, which of them a render pass draws, and
//! what becomes of a pass that failed.

use vstd::prelude::*;
use vstd::string::*;
use crate::fps::{decimal_digits, digits_of, digits_value, lemma_digits_spell_value};

verus! {

/// Milliseconds before a failed render pass is tried again: one frame at
/// sixty frames a second.
pub const RESCHEDULE_DELAY_MS: u64 = 1000 / 60;

/// Why submitting a frame failed.
#[derive(Clone, Copy, PartialEq, Eq, Structural, Debug)]
pub enum SwapError {
    /// The buffers were swapped already.
    AlreadySwapped,
    /// A failure that may pass; `device_inactive` and `permission_denied`
    /// tell the DRM errors that mean the session lost the device.
    TemporaryFailure { device_inactive: bool, permission_denied: bool },
    /// The rendering context is gone.
    ContextLost,
}

/// What to do after a failed render pass.
#[derive(Clone, Copy, PartialEq, Eq, Structural, Debug)]
pub enum AfterError {
    /// Nothing: wait for the next event.
    Wait,
    /// Try again after `RESCHEDULE_DELAY_MS`, or as soon as idle for the
    /// first frame.
    Retry,
}

/// After a failed render pass of an output: a temporary failure is tried
/// again unless the device went inactive or access to it was denied. A lost
/// context ends the rendering loop altogether, and is the caller's to
/// handle before asking.
pub fn after_render_error(e: SwapError) -> (r: AfterError)
    requires
        !(e is ContextLost),
    ensures
        e is AlreadySwapped ==> r == AfterError::Wait,
        e matches SwapError::TemporaryFailure { device_inactive, permission_denied } ==> r == (
        if device_inactive || permission_denied {
            AfterError::Wait
        } else {
            AfterError::Retry
        }),
{
    if let SwapError::TemporaryFailure { device_inactive, permission_denied } = e {
        if device_inactive || permission_denied {
            AfterError::Wait
        } else {
            AfterError::Retry
        }
    } else {
        AfterError::Wait
    }
}

/// After a failed first frame of an output: every temporary failure is
/// tried again. A lost context ends the rendering loop altogether, and is
/// the caller's to handle before asking.
pub fn after_initial_render_error(e: SwapError) -> (r: AfterError)
    requires
        !(e is ContextLost),
    ensures
        e is AlreadySwapped ==> r == AfterError::Wait,
        e is TemporaryFailure ==> r == AfterError::Retry,
{
    if let SwapError::TemporaryFailure { .. } = e {
        AfterError::Retry
    } else {
        AfterError::Wait
    }
}

/// The CRTCs a render pass draws: the one asked for if it drives an
/// output of the device, else none; every one of them when none is asked
/// for.
pub open spec fn spec_render_targets(crtc: Option<u32>, surfaces: Seq<u32>) -> Seq<u32> {
    match crtc {
        None => surfaces,
        Some(c) => if surfaces.contains(c) {
            seq![c]
        } else {
            Seq::empty()
        },
    }
}

/// The CRTCs a render pass draws, given the CRTCs that drive the device's
/// outputs.
pub fn render_targets(crtc: Option<u32>, surfaces: &Vec<u32>) -> (r: Vec<u32>)
    ensures
        r@ == spec_render_targets(crtc, surfaces@),
{
    match crtc {
        None => surfaces.clone(),
        Some(c) => {
            let mut i: usize = 0;
            while i < surfaces.len()
                invariant
                    crtc == Some(c),
                    i <= surfaces@.len(),
                    forall|j: int| 0 <= j < i ==> surfaces@[j] != c,
                decreases surfaces.len() - i,
            {
                if surfaces[i] == c {
                    let mut r: Vec<u32> = Vec::new();
                    r.push(c);
                    assert(surfaces@[i as int] == c);
                    assert(surfaces@.contains(c));
                    assert(r@ =~= seq![c]);
                    return r;
                }
                i = i + 1;
            }
            assert(!surfaces@.contains(c));
            Vec::new()
        },
    }
}

/// A render pass of device `device`: `None` when the device is unknown,
/// else the CRTCs to draw (see `render_targets`).
pub fn render_pass(known_device: bool, crtc: Option<u32>, surfaces: &Vec<u32>) -> (r: Option<
    Vec<u32>,
>)
    ensures
        match r {
            None => !known_device,
            Some(t) => known_device && t@ == spec_render_targets(crtc, surfaces@),
        },
{
    if !known_device {
        return None;
    }
    Some(render_targets(crtc, surfaces))
}

/// A new render pass of one CRTC, some milliseconds from now.
#[derive(Clone, Copy, PartialEq, Eq, Structural, Debug)]
pub struct RenderTimeout {
    pub delay_ms: u64,
    pub device: u64,
    pub crtc: u32,
}

/// What follows the rendering of one CRTC.
#[derive(Clone, Copy, PartialEq, Eq, Structural, Debug)]
pub struct RenderFollowUp {
    /// Send the windows their frame callbacks.
    pub send_frames: bool,
    /// Render again after this many milliseconds, for this device and CRTC.
    pub timeout: Option<RenderTimeout>,
}

/// What follows rendering `crtc` of `device`: frame callbacks after a
/// successful pass; after a failed one, a new pass one frame later when
/// the failure may pass (see `after_render_error`), else nothing. A lost
/// context is the caller's to handle before asking.
pub fn after_render(device: u64, crtc: u32, result: Result<(), SwapError>) -> (r: RenderFollowUp)
    requires
        result matches Err(e) ==> !(e is ContextLost),
    ensures
        match result {
            Ok(()) => r == (RenderFollowUp { send_frames: true, timeout: None }),
            Err(e) => r == (RenderFollowUp {
                send_frames: false,
                timeout: if e matches SwapError::TemporaryFailure {
                    device_inactive,
                    permission_denied,
                } && !device_inactive && !permission_denied {
                    Some(RenderTimeout { delay_ms: RESCHEDULE_DELAY_MS, device, crtc })
                } else {
                    None
                },
            }),
        },
{
    match result {
        Ok(()) => RenderFollowUp { send_frames: true, timeout: None },
        Err(e) => {
            let timeout = match after_render_error(e) {
                AfterError::Retry => Some(RenderTimeout { delay_ms: RESCHEDULE_DELAY_MS, device, crtc }),
                AfterError::Wait => None,
            };
            RenderFollowUp { send_frames: false, timeout }
        },
    }
}

/// `i` is the first index from `from` on of a candidate CRTC not taken yet.
pub open spec fn is_first_free(taken: Seq<u32>, candidates: Seq<u32>, from: int, i: int) -> bool {
    &&& from <= i < candidates.len()
    &&& !taken.contains(candidates[i])
    &&& forall|j: int| from <= j < i ==> taken.contains(#[trigger] candidates[j])
}

/// The next CRTC to try for a connector: the first of its candidates, from
/// index `from` on, that drives no output yet. The candidates are the CRTCs
/// each of the connector's encoders can use, encoder after encoder. When
/// setting up an output on the CRTC fails, the search goes on from the next
/// candidate; when it succeeds the CRTC is taken and the connector is done.
pub fn next_free_crtc(taken: &Vec<u32>, candidates: &Vec<u32>, from: usize) -> (r: Option<usize>)
    ensures
        match r {
            Some(i) => is_first_free(taken@, candidates@, from as int, i as int),
            None => forall|j: int|
                from <= j < candidates@.len() ==> taken@.contains(#[trigger] candidates@[j]),
        },
{
    let mut i: usize = from;
    while i < candidates.len()
        invariant
            from <= i,
            forall|j: int| from <= j < i ==> taken@.contains(#[trigger] candidates@[j]),
        decreases candidates.len() - i,
    {
        let c = candidates[i];
        let mut k: usize = 0;
        let mut found = false;
        while k < taken.len()
            invariant
                k <= taken@.len(),
                found <==> exists|m: int| 0 <= m < k && taken@[m] == c,
            decreases taken.len() - k,
        {
            if taken[k] == c {
                found = true;
            }
            k = k + 1;
        }
        if !found {
            proof {
                if taken@.contains(c) {
                    let m = choose|m: int| 0 <= m < taken@.len() && taken@[m] == c;
                    assert(exists|m: int| 0 <= m < k && taken@[m] == c);
                }
            }
            return Some(i);
        }
        assert(taken@.contains(candidates@[i as int]));
        i = i + 1;
    }
    None
}

/// The kind of plug of a connector.
#[derive(Clone, Copy, PartialEq, Eq, Structural, Debug)]
pub enum ConnectorInterface {
    DVII,
    DVID,
    DVIA,
    SVideo,
    DisplayPort,
    EmbeddedDisplayPort,
    HDMIA,
    HDMIB,
    /// Any other kind, named after its debug form by the caller.
    Other,
}

/// The short name of a connector kind in output names, as the DRM
/// subsystem spells it; empty for the kinds named after their debug form.
pub open spec fn spec_short_name(interface: ConnectorInterface) -> Seq<char> {
    match interface {
        ConnectorInterface::DVII => "DVI-I"@,
        ConnectorInterface::DVID => "DVI-D"@,
        ConnectorInterface::DVIA => "DVI-A"@,
        ConnectorInterface::SVideo => "S-VIDEO"@,
        ConnectorInterface::DisplayPort => "DP"@,
        ConnectorInterface::EmbeddedDisplayPort => "eDP"@,
        ConnectorInterface::HDMIA => "HDMI-A"@,
        ConnectorInterface::HDMIB => "HDMI-B"@,
        ConnectorInterface::Other => Seq::empty(),
    }
}

/// The short name of a connector kind in output names, as the DRM
/// subsystem spells it; `None` for the kinds named after their debug form.
pub fn interface_short_name(interface: ConnectorInterface) -> (r: Option<&'static str>)
    ensures
        r matches Some(s) ==> s@ == spec_short_name(interface),
        r matches Some(s) ==> s@ == (match interface {
            ConnectorInterface::DVII => "DVI-I"@,
            ConnectorInterface::DVID => "DVI-D"@,
            ConnectorInterface::DVIA => "DVI-A"@,
            ConnectorInterface::SVideo => "S-VIDEO"@,
            ConnectorInterface::DisplayPort => "DP"@,
            ConnectorInterface::EmbeddedDisplayPort => "eDP"@,
            ConnectorInterface::HDMIA => "HDMI-A"@,
            ConnectorInterface::HDMIB => "HDMI-B"@,
            ConnectorInterface::Other => Seq::empty(),
        }),
        r is None <==> interface is Other,
{
    match interface {
        ConnectorInterface::DVII => Some("DVI-I"),
        ConnectorInterface::DVID => Some("DVI-D"),
        ConnectorInterface::DVIA => Some("DVI-A"),
        ConnectorInterface::SVideo => Some("S-VIDEO"),
        ConnectorInterface::DisplayPort => Some("DP"),
        ConnectorInterface::EmbeddedDisplayPort => Some("eDP"),
        ConnectorInterface::HDMIA => Some("HDMI-A"),
        ConnectorInterface::HDMIB => Some("HDMI-B"),
        ConnectorInterface::Other => None,
    }
}

/// The mode of an output from a connector mode: its size, and its refresh
/// rate in millihertz, read as `i32` the way the output code casts it.
pub fn output_mode(width: u16, height: u16, vrefresh: u32) -> (r: (i32, i32, i32))
    requires
        vrefresh * 1000 <= u32::MAX,
    ensures
        r == (width as i32, height as i32, ((vrefresh * 1000) as u32) as i32),
{
    let millihertz: u32 = vrefresh * 1000;
    (width as i32, height as i32, millihertz as i32)
}

/// The character of a decimal digit.
pub open spec fn digit_char(d: u32) -> char {
    if d == 0 {
        '0'
    } else if d == 1 {
        '1'
    } else if d == 2 {
        '2'
    } else if d == 3 {
        '3'
    } else if d == 4 {
        '4'
    } else if d == 5 {
        '5'
    } else if d == 6 {
        '6'
    } else if d == 7 {
        '7'
    } else if d == 8 {
        '8'
    } else {
        '9'
    }
}

/// `v` written in decimal.
pub open spec fn decimal_text(v: u32) -> Seq<char> {
    decimal_digits(v).map_values(|d: u32| digit_char(d))
}

/// The name of an output: the short name of its connector's kind (or, for
/// the other kinds, `other_name`), a hyphen, and the connector's interface
/// id in decimal, as in `HDMI-A-1`.
pub open spec fn spec_output_name(interface: ConnectorInterface, other_name: Seq<char>, id: u32) -> Seq<
    char,
> {
    let kind = match interface {
        ConnectorInterface::DVII => "DVI-I"@,
        ConnectorInterface::DVID => "DVI-D"@,
        ConnectorInterface::DVIA => "DVI-A"@,
        ConnectorInterface::SVideo => "S-VIDEO"@,
        ConnectorInterface::DisplayPort => "DP"@,
        ConnectorInterface::EmbeddedDisplayPort => "eDP"@,
        ConnectorInterface::HDMIA => "HDMI-A"@,
        ConnectorInterface::HDMIB => "HDMI-B"@,
        ConnectorInterface::Other => other_name,
    };
    kind + "-"@ + decimal_text(id)
}

/// The text of one decimal digit.
fn digit_str(d: u32) -> (r: &'static str)
    requires
        d < 10,
    ensures
        r@ == seq![digit_char(d)],
{
    proof {
        reveal_strlit("0");
        reveal_strlit("1");
        reveal_strlit("2");
        reveal_strlit("3");
        reveal_strlit("4");
        reveal_strlit("5");
        reveal_strlit("6");
        reveal_strlit("7");
        reveal_strlit("8");
        reveal_strlit("9");
    }
    if d == 0 {
        "0"
    } else if d == 1 {
        "1"
    } else if d == 2 {
        "2"
    } else if d == 3 {
        "3"
    } else if d == 4 {
        "4"
    } else if d == 5 {
        "5"
    } else if d == 6 {
        "6"
    } else if d == 7 {
        "7"
    } else if d == 8 {
        "8"
    } else {
        "9"
    }
}

/// The name of an output, see `spec_output_name`.
pub fn output_name(interface: ConnectorInterface, other_name: &str, id: u32) -> (r: String)
    ensures
        r@ == spec_output_name(interface, other_name@, id),
{
    let mut name = match interface_short_name(interface) {
        Some(short) => String::from_str(short),
        None => String::from_str(other_name),
    };
    proof {
        reveal_strlit("-");
    }
    name.append("-");
    let digits = digits_of(id);
    let mut i: usize = 0;
    let ghost prefix = name@;
    while i < digits.len()
        invariant
            i <= digits@.len(),
            digits@ == decimal_digits(id),
            forall|k: int| 0 <= k < digits@.len() ==> #[trigger] digits@[k] < 10,
            name@ == prefix + decimal_text(id).take(i as int),
        decreases digits.len() - i,
    {
        let d = digits[i];
        name.append(digit_str(d));
        proof {
            assert(decimal_text(id).take(i + 1) =~= decimal_text(id).take(i as int) + seq![
                digit_char(d),
            ]);
        }
        i = i + 1;
    }
    assert(decimal_text(id).take(i as int) =~= decimal_text(id));
    name
}

/// The CRTCs of a device that drive an output, each at most once.
pub struct CrtcAllocator {
    taken: Vec<u32>,
}

impl CrtcAllocator {
    /// The CRTCs taken, in the order they were taken.
    pub closed spec fn taken_view(&self) -> Seq<u32> {
        self.taken@
    }

    /// No CRTC drives two outputs.
    pub open spec fn wf(&self) -> bool {
        self.taken_view().no_duplicates()
    }

    /// No CRTC taken yet.
    pub fn new() -> (r: CrtcAllocator)
        ensures
            r.taken_view() == Seq::<u32>::empty(),
            r.wf(),
    {
        CrtcAllocator { taken: Vec::new() }
    }

    /// The next candidate to try for a connector, see `next_free_crtc`.
    pub fn next_free(&self, candidates: &Vec<u32>, from: usize) -> (r: Option<usize>)
        ensures
            match r {
                Some(i) => is_first_free(self.taken_view(), candidates@, from as int, i as int),
                None => forall|j: int|
                    from <= j < candidates@.len() ==> self.taken_view().contains(
                        #[trigger] candidates@[j],
                    ),
            },
    {
        next_free_crtc(&self.taken, candidates, from)
    }

    /// Records how setting up a connector on its candidate `i` went: on
    /// success the CRTC is taken and the connector is done (`None`); on
    /// failure nothing is taken and the connector's walk goes on from the
    /// next candidate.
    pub fn attempt_done(&mut self, candidates: &Vec<u32>, i: usize, ok: bool) -> (r: Option<usize>)
        requires
            old(self).wf(),
            i < candidates@.len(),
            !old(self).taken_view().contains(candidates@[i as int]),
        ensures
            final(self).wf(),
            ok ==> r is None && final(self).taken_view() == old(self).taken_view().push(
                candidates@[i as int],
            ),
            !ok ==> r == Some((i + 1) as usize) && final(self).taken_view()
                == old(self).taken_view(),
    {
        let count = candidates.len();
        assert(i < count);
        if ok {
            self.take(candidates[i]);
            None
        } else {
            Some(i + 1)
        }
    }

    /// Takes `crtc` for an output that was set up on it. Returns `false`,
    /// and takes nothing, when it was taken already.
    pub fn take(&mut self, crtc: u32) -> (r: bool)
        requires
            old(self).wf(),
        ensures
            final(self).wf(),
            r == !old(self).taken_view().contains(crtc),
            final(self).taken_view() == (if r {
                old(self).taken_view().push(crtc)
            } else {
                old(self).taken_view()
            }),
    {
        let mut k: usize = 0;
        while k < self.taken.len()
            invariant
                self.taken@ == old(self).taken@,
                old(self).wf(),
                k <= self.taken@.len(),
                forall|m: int| 0 <= m < k ==> self.taken@[m] != crtc,
            decreases self.taken.len() - k,
        {
            if self.taken[k] == crtc {
                assert(self.taken@.contains(crtc));
                return false;
            }
            k = k + 1;
        }
        let ghost before = self.taken@;
        self.taken.push(crtc);
        proof {
            assert forall|a: int, b: int|
                0 <= a < b < self.taken@.len() implies self.taken@[a] != self.taken@[b] by {
                if b == before.len() {
                    assert(before[a] != crtc);
                } else {
                    assert(before[a] != before[b]);
                }
            }
        }
        true
    }
}

/// The positions of the connected connectors among the first `n`, in order.
pub open spec fn connected_positions(connected: Seq<bool>, n: int) -> Seq<usize>
    decreases n,
{
    if n <= 0 {
        Seq::empty()
    } else {
        connected_positions(connected, n - 1) + if connected[n - 1] {
            seq![(n - 1) as usize]
        } else {
            Seq::empty()
        }
    }
}

/// The connectors a scan walks: those connected, in the device's order.
pub fn connected_connectors(connected: &Vec<bool>) -> (r: Vec<usize>)
    ensures
        r@ == connected_positions(connected@, connected@.len() as int),
{
    let mut r: Vec<usize> = Vec::new();
    let mut i: usize = 0;
    while i < connected.len()
        invariant
            i <= connected@.len(),
            r@ == connected_positions(connected@, i as int),
        decreases connected.len() - i,
    {
        if connected[i] {
            r.push(i);
        }
        i = i + 1;
        assert(r@ =~= connected_positions(connected@, i as int));
    }
    r
}

/// An output is named by its connector kind's short name, exactly as
/// `interface_short_name` gives it (the given debug name for the other
/// kinds), then a hyphen, then the connector's index in decimal.
pub proof fn lemma_output_name_parts(interface: ConnectorInterface, other_name: Seq<char>, id: u32)
    ensures
        spec_output_name(interface, other_name, id) == (if interface is Other {
            other_name
        } else {
            spec_short_name(interface)
        }) + "-"@ + decimal_text(id),
{
}

/// Connectors of different kinds get different names: no two kinds with a
/// short name share it, so at the same index their outputs never clash.
pub proof fn lemma_output_names_distinct(
    a: ConnectorInterface,
    b: ConnectorInterface,
    other_name: Seq<char>,
    id: u32,
)
    requires
        a != b,
        !(a is Other),
        !(b is Other),
    ensures
        spec_short_name(a) != spec_short_name(b),
        spec_output_name(a, other_name, id) != spec_output_name(b, other_name, id),
{
    reveal_strlit("DVI-I");
    reveal_strlit("DVI-D");
    reveal_strlit("DVI-A");
    reveal_strlit("S-VIDEO");
    reveal_strlit("DP");
    reveal_strlit("eDP");
    reveal_strlit("HDMI-A");
    reveal_strlit("HDMI-B");
    reveal_strlit("-");
    let sa = spec_short_name(a);
    let sb = spec_short_name(b);
    assert(sa.len() != sb.len() || sa[sa.len() - 1] != sb[sb.len() - 1]);
    let na = spec_output_name(a, other_name, id);
    let nb = spec_output_name(b, other_name, id);
    assert(na == sa + "-"@ + decimal_text(id));
    assert(nb == sb + "-"@ + decimal_text(id));
    if sa.len() == sb.len() {
        assert(na[sa.len() - 1] == sa[sa.len() - 1]);
        assert(nb[sb.len() - 1] == sb[sb.len() - 1]);
    } else {
        assert(na.len() != nb.len());
    }
}

/// The index in an output name is written in decimal: one character per
/// decimal digit of the index, most significant first, each the ASCII
/// digit of that value, reading back to the index.
pub proof fn lemma_decimal_text_reads_back(v: u32)
    ensures
        decimal_text(v).len() == decimal_digits(v).len(),
        forall|k: int|
            0 <= k < decimal_text(v).len() ==> (#[trigger] decimal_text(v)[k]) as u32 == 48
                + decimal_digits(v)[k],
        digits_value(decimal_digits(v)) == v,
{
    lemma_digits_spell_value(v);
    assert forall|k: int| 0 <= k < decimal_text(v).len() implies (
    #[trigger] decimal_text(v)[k]) as u32 == 48 + decimal_digits(v)[k] by {
        assert(decimal_digits(v)[k] < 10);
    }
}

} // verus!

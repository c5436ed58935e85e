//! Ordering of Wayland event serials, which wrap around.

use vstd::prelude::*;

verus! {

/// Whether serial `a` comes at or after serial `b`. Two serials further apart
/// than half the range are taken to have wrapped around, and compare the
/// other way round.
pub open spec fn serial_not_before(a: u32, b: u32) -> bool {
    let distance = if a > b { a - b } else { b - a };
    if distance < u32::MAX / 2 {
        a >= b
    } else {
        b >= a
    }
}

/// Whether serial `a` comes at or after serial `b`, wrapping around as
/// `serial_not_before` says.
pub fn serial_at_least(a: u32, b: u32) -> (r: bool)
    ensures
        r == serial_not_before(a, b),
{
    let distance = if a > b { a - b } else { b - a };
    if distance < u32::MAX / 2 {
        a >= b
    } else {
        b >= a
    }
}

/// Every serial is not before itself, and a serial handed out fewer than
/// half the range after another, wrapping around past `u32::MAX`, is not
/// before it.
pub proof fn lemma_later_serial_not_before(a: u32, k: u32)
    requires
        k < u32::MAX / 2,
    ensures
        serial_not_before(a, a),
        serial_not_before(((a + k) % 0x1_0000_0000) as u32, a),
{
}

} // verus!

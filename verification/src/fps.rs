//! The frame-rate counter: which glyphs of the digits texture spell a
//! number.

use vstd::prelude::*;
use crate::geometry::{Point, Size, Rectangle};

verus! {

/// The decimal digits of `v`, most significant first; zero is one digit.
pub open spec fn decimal_digits(v: u32) -> Seq<u32>
    decreases v,
{
    if v < 10 {
        seq![v]
    } else {
        decimal_digits(v / 10).push(v % 10)
    }
}

/// Where the glyph of a digit lies in the digits texture: glyphs are 22x35
/// pixels, laid out as 9 6 3 1 / 8 0 2 / 7 4 5.
pub open spec fn spec_digit_glyph(digit: u32) -> Rectangle {
    let (x, y) = if digit == 9 {
        (0, 0)
    } else if digit == 6 {
        (22, 0)
    } else if digit == 3 {
        (44, 0)
    } else if digit == 1 {
        (66, 0)
    } else if digit == 8 {
        (0, 35)
    } else if digit == 0 {
        (22, 35)
    } else if digit == 2 {
        (44, 35)
    } else if digit == 7 {
        (0, 70)
    } else if digit == 4 {
        (22, 70)
    } else {
        (44, 70)
    };
    Rectangle { loc: Point { x, y }, size: Size { w: 22, h: 35 } }
}

/// Where the glyph of a digit lies in the digits texture.
pub fn digit_glyph(digit: u32) -> (r: Rectangle)
    requires
        digit < 10,
    ensures
        r == spec_digit_glyph(digit),
{
    let (x, y) = if digit == 9 {
        (0, 0)
    } else if digit == 6 {
        (22, 0)
    } else if digit == 3 {
        (44, 0)
    } else if digit == 1 {
        (66, 0)
    } else if digit == 8 {
        (0, 35)
    } else if digit == 0 {
        (22, 35)
    } else if digit == 2 {
        (44, 35)
    } else if digit == 7 {
        (0, 70)
    } else if digit == 4 {
        (22, 70)
    } else {
        (44, 70)
    };
    Rectangle::from_loc_and_size(Point { x, y }, Size { w: 22, h: 35 })
}

/// The glyphs that spell `value`, one per decimal digit, most significant
/// first. Each is drawn 24 pixels (times the output scale) right of the
/// previous one.
pub fn fps_glyphs(value: u32) -> (r: Vec<Rectangle>)
    ensures
        r@.len() == decimal_digits(value).len(),
        forall|i: int|
            0 <= i < r@.len() ==> #[trigger] r@[i] == spec_digit_glyph(decimal_digits(value)[i]),
{
    let mut v = value;
    let mut r: Vec<Rectangle> = Vec::new();
    let ghost mut tail: Seq<u32> = Seq::empty();
    while v >= 10
        invariant
            decimal_digits(v) + tail == decimal_digits(value),
            r@.len() == tail.len(),
            forall|i: int| 0 <= i < r@.len() ==> #[trigger] r@[i] == spec_digit_glyph(tail[i]),
        decreases v,
    {
        let g = digit_glyph(v % 10);
        r.insert(0, g);
        proof {
            assert(decimal_digits(v) == decimal_digits(v / 10).push(v % 10));
            assert(decimal_digits(v / 10) + (seq![v % 10] + tail) =~= decimal_digits(v) + tail);
            tail = seq![v % 10] + tail;
        }
        v = v / 10;
    }
    let g = digit_glyph(v);
    r.insert(0, g);
    proof {
        assert(decimal_digits(v) == seq![v]);
        tail = seq![v] + tail;
        assert(tail =~= decimal_digits(value));
    }
    r
}

/// `a / b` rounded up, for a positive `b`.
pub open spec fn ceil_div(a: int, b: int) -> int {
    if a % b == 0 {
        a / b
    } else {
        a / b + 1
    }
}

/// How many copies of the background tile cover an output of `output`
/// pixels along one axis: enough to cover it, and one more for the tile
/// the workspace offset pushes in.
pub fn background_tiles(output: i32, tile: i32) -> (r: i32)
    requires
        tile > 0,
        ceil_div(output as int, tile as int) + 1 <= i32::MAX,
    ensures
        r == ceil_div(output as int, tile as int) + 1,
{
    let o = output as i64;
    let t = tile as i64;
    if o >= 0 {
        let q = o / t;
        let m = o % t;
        if m > 0 {
            (q + 2) as i32
        } else {
            (q + 1) as i32
        }
    } else {
        let n = -o;
        let q = n / t;
        let m = n % t;
        proof {
            let (oi, ti, qi, mi) = (o as int, t as int, q as int, m as int);
            vstd::arithmetic::div_mod::lemma_fundamental_div_mod(n as int, ti);
            if mi == 0 {
                assert(oi == (-qi) * ti + 0) by (nonlinear_arith)
                    requires
                        n as int == ti * qi + mi,
                        oi == -(n as int),
                        mi == 0,
                ;
                vstd::arithmetic::div_mod::lemma_fundamental_div_mod_converse(oi, ti, -qi, 0);
            } else {
                assert(oi == (-qi - 1) * ti + (ti - mi)) by (nonlinear_arith)
                    requires
                        n as int == ti * qi + mi,
                        oi == -(n as int),
                ;
                vstd::arithmetic::div_mod::lemma_fundamental_div_mod_converse(
                    oi,
                    ti,
                    -qi - 1,
                    ti - mi,
                );
            }
        }
        (1 - q) as i32
    }
}

/// The number a sequence of decimal digits spells, most significant
/// first.
pub open spec fn digits_value(digits: Seq<u32>) -> int
    decreases digits.len(),
{
    if digits.len() == 0 {
        0
    } else {
        digits_value(digits.drop_last()) * 10 + digits.last()
    }
}

/// The counter spells the number it shows: its digits are decimal digits
/// and read back to the value, with no leading zero.
pub proof fn lemma_digits_spell_value(v: u32)
    ensures
        digits_value(decimal_digits(v)) == v,
        forall|i: int|
            0 <= i < decimal_digits(v).len() ==> #[trigger] decimal_digits(v)[i] < 10,
        decimal_digits(v).len() > 1 ==> decimal_digits(v)[0] != 0,
        decimal_digits(v).len() >= 1,
        v >= 10 <==> decimal_digits(v).len() > 1,
    decreases v,
{
    if v >= 10 {
        lemma_digits_spell_value(v / 10);
        let d = decimal_digits(v);
        assert(d.drop_last() == decimal_digits(v / 10));
        assert(d.last() == v % 10);
        assert(v == (v / 10) * 10 + v % 10);
        assert(v / 10 >= 1);
        assert(decimal_digits(v / 10).len() >= 1);
        assert(d[0] == decimal_digits(v / 10)[0]);
        if v / 10 < 10 {
            assert(decimal_digits(v / 10)[0] == v / 10);
        }
    } else {
        let d = decimal_digits(v);
        assert(d == seq![v]);
        assert(d.drop_last() =~= Seq::<u32>::empty());
        assert(digits_value(d.drop_last()) == 0);
    }
}

/// The decimal digits of `v`, most significant first.
pub fn digits_of(v: u32) -> (r: Vec<u32>)
    ensures
        r@ == decimal_digits(v),
        forall|i: int| 0 <= i < r@.len() ==> #[trigger] r@[i] < 10,
{
    proof {
        lemma_digits_spell_value(v);
    }
    let mut w = v;
    let mut r: Vec<u32> = Vec::new();
    while w >= 10
        invariant
            decimal_digits(w) + r@ == decimal_digits(v),
        decreases w,
    {
        proof {
            assert(decimal_digits(w) == decimal_digits(w / 10).push(w % 10));
            assert(decimal_digits(w / 10) + (seq![w % 10] + r@) =~= decimal_digits(w) + r@);
        }
        r.insert(0, w % 10);
        w = w / 10;
    }
    let ghost before = r@;
    r.insert(0, w);
    proof {
        assert(decimal_digits(w) == seq![w]);
        assert(r@ =~= decimal_digits(w) + before);
    }
    r
}

} // verus!

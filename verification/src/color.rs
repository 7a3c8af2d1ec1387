//! Colours as exact fractions, and the conversion from hue, saturation and
//! value to red, green and blue.
//!
//! Nothing here rounds: every quantity is a quotient of two integers, and a
//! colour carries one denominator for its three channels.

use vstd::arithmetic::div_mod::{lemma_div_multiples_vanish_quotient, lemma_truncate_middle};
use vstd::prelude::*;
use crate::ratio::Ratio;

verus! {

/// A colour given by red, green and blue channels that share one
/// denominator: the red channel is `r / den`, and so on.
#[derive(Clone, Copy, Debug, PartialEq, Eq, Structural)]
pub struct Rgb {
    pub r: i128,
    pub g: i128,
    pub b: i128,
    pub den: i128,
}

impl Rgb {
    /// The colour with the given numerators and denominator.
    pub open spec fn of(r: int, g: int, b: int, den: int) -> Rgb {
        Rgb { r: r as i128, g: g as i128, b: b as i128, den: den as i128 }
    }

    /// White: every channel is one.
    pub open spec fn spec_white() -> Rgb {
        Rgb { r: 1, g: 1, b: 1, den: 1 }
    }

    /// Every channel lies between zero and one, both included.
    pub open spec fn in_unit_range(self) -> bool {
        &&& self.den > 0
        &&& 0 <= self.r <= self.den
        &&& 0 <= self.g <= self.den
        &&& 0 <= self.b <= self.den
    }

    /// Two colours are the same point of colour space: channel by channel
    /// the fractions are equal, whatever their denominators.
    pub open spec fn same_color(self, other: Rgb) -> bool {
        &&& self.r * other.den == other.r * self.den
        &&& self.g * other.den == other.g * self.den
        &&& self.b * other.den == other.b * self.den
    }

    /// White: every channel is one.
    pub fn white() -> (c: Rgb)
        ensures
            c == Rgb::spec_white(),
    {
        Rgb { r: 1, g: 1, b: 1, den: 1 }
    }
}

/// The sector of the colour wheel that a hue falls in: the wheel has six
/// sectors of a sixth of a turn each, counted from zero.
pub open spec fn hue_sector(h: Ratio) -> int {
    (6 * h.num) / (h.den as int)
}

/// The ramp of a hue, in units of `1 / h.den`: it climbs from zero to one
/// over each even sector and falls back to zero over each odd one.
pub open spec fn hue_ramp(h: Ratio) -> int {
    let along = (6 * h.num) % (2 * h.den);
    if along <= h.den {
        along
    } else {
        2 * h.den - along
    }
}

/// The denominator of the colour that `hsv_to_rgb` returns.
pub open spec fn hsv_den(h: Ratio, s: Ratio, v: Ratio) -> int {
    v.den * s.den * h.den
}

/// The chroma `v * s`, in units of `1 / hsv_den`.
pub open spec fn hsv_chroma(h: Ratio, s: Ratio, v: Ratio) -> int {
    v.num * s.num * h.den
}

/// The chroma scaled by the hue's ramp, in units of `1 / hsv_den`.
pub open spec fn hsv_second(h: Ratio, s: Ratio, v: Ratio) -> int {
    v.num * s.num * hue_ramp(h)
}

/// The amount `v - v * s` that every channel gets, in units of
/// `1 / hsv_den`.
pub open spec fn hsv_base(h: Ratio, s: Ratio, v: Ratio) -> int {
    v.num * (s.den - s.num) * h.den
}

/// The three numerators of the colour with hue `h`, saturation `s` and
/// value `v`, over the denominator `hsv_den`.
pub open spec fn hsv_channels(h: Ratio, s: Ratio, v: Ratio) -> (int, int, int) {
    let c = hsv_chroma(h, s, v);
    let x = hsv_second(h, s, v);
    let m = hsv_base(h, s, v);
    let sector = hue_sector(h);
    if sector < 1 {
        (c + m, x + m, m)
    } else if sector < 2 {
        (x + m, c + m, m)
    } else if sector < 3 {
        (m, c + m, x + m)
    } else if sector < 4 {
        (m, x + m, c + m)
    } else if sector < 5 {
        (x + m, m, c + m)
    } else {
        (c + m, m, x + m)
    }
}

/// The colour with hue `h`, saturation `s` and value `v`.
pub open spec fn hsv_rgb(h: Ratio, s: Ratio, v: Ratio) -> Rgb {
    let (r, g, b) = hsv_channels(h, s, v);
    Rgb::of(r, g, b, hsv_den(h, s, v))
}

/// The ramp of a hue never leaves the interval from zero to one.
pub proof fn lemma_hue_ramp_bounds(h: Ratio)
    requires
        h.wf(),
    ensures
        0 <= hue_ramp(h) <= h.den,
{
}

/// A product of three factors is bounded by the product of their bounds.
proof fn lemma_product_bound(a: int, b: int, c: int, la: int, lb: int, lc: int)
    by (nonlinear_arith)
    requires
        0 <= a <= la,
        0 <= b <= lb,
        0 <= c <= lc,
    ensures
        0 <= a * b <= la * lb,
        0 <= a * b * c <= la * lb * lc,
{
}

/// The quantities that make up a colour fit well inside 128 bits.
pub proof fn lemma_hsv_parts_bounds(h: Ratio, s: Ratio, v: Ratio)
    requires
        h.wf(),
    ensures
        0 <= hsv_chroma(h, s, v) <= 0xffff_ffff * 0xffff_ffff * 0xffff_ffff,
        0 <= hsv_second(h, s, v) <= hsv_chroma(h, s, v),
        -(0xffff_ffff * 0xffff_ffff * 0xffff_ffff) <= hsv_base(h, s, v) <= 0xffff_ffff
            * 0xffff_ffff * 0xffff_ffff,
        0 <= hsv_den(h, s, v) <= 0xffff_ffff * 0xffff_ffff * 0xffff_ffff,
        s.wf() && v.wf() ==> hsv_den(h, s, v) > 0,
        s.num <= s.den ==> hsv_base(h, s, v) >= 0,
{
    let top: int = 0xffff_ffff;
    lemma_product_bound(v.num as int, s.num as int, h.den as int, top, top, top);
    lemma_product_bound(
        v.num as int,
        s.num as int,
        hue_ramp(h),
        v.num as int,
        s.num as int,
        h.den as int,
    );
    lemma_product_bound(v.den as int, s.den as int, h.den as int, top, top, top);
    if s.num <= s.den {
        lemma_product_bound(v.num as int, s.den - s.num, h.den as int, top, top, top);
    } else {
        lemma_product_bound(v.num as int, s.num - s.den, h.den as int, top, top, top);
        assert(v.num * (s.den - s.num) * h.den == -(v.num * (s.num - s.den) * h.den))
            by (nonlinear_arith);
    }
    if s.wf() && v.wf() {
        assert(v.den * s.den * h.den > 0) by (nonlinear_arith)
            requires
                v.den > 0,
                s.den > 0,
                h.den > 0,
        ;
    }
}

/// Converts hue, saturation and value to red, green and blue.
///
/// The hue `h` is a fraction of a full turn, so a sector of sixty degrees is
/// a sixth of it; `s` and `v` are the saturation and the value. The result
/// has the denominator `v.den * s.den * h.den`. A hue of five sixths of a
/// turn or more is taken with the last sector.
pub fn hsv_to_rgb(h: Ratio, s: Ratio, v: Ratio) -> (c: Rgb)
    requires
        h.wf(),
        s.wf(),
        v.wf(),
    ensures
        c == hsv_rgb(h, s, v),
        (c.r as int, c.g as int, c.b as int) == hsv_channels(h, s, v),
        c.den == hsv_den(h, s, v),
        c.den > 0,
        s.num <= s.den && v.num <= v.den ==> c.in_unit_range(),
{
    proof {
        lemma_hsv_parts_bounds(h, s, v);
        if s.num <= s.den && v.num <= v.den {
            lemma_hsv_unit_range(h, s, v);
        }
        lemma_product_bound(
            v.num as int,
            s.num as int,
            h.den as int,
            0xffff_ffff,
            0xffff_ffff,
            0xffff_ffff,
        );
        lemma_product_bound(
            v.den as int,
            s.den as int,
            h.den as int,
            0xffff_ffff,
            0xffff_ffff,
            0xffff_ffff,
        );
    }
    let six: u64 = 6 * (h.num as u64);
    let whole: u64 = h.den as u64;
    let sector: u64 = six / whole;
    let along: u64 = six % (2 * whole);
    let ramp: u64 = if along <= whole {
        along
    } else {
        2 * whole - along
    };
    let product: u64 = (v.num as u64) * (s.num as u64);
    let den_product: u64 = (v.den as u64) * (s.den as u64);
    let chroma: i128 = (product as i128) * (whole as i128);
    let second: i128 = (product as i128) * (ramp as i128);
    let slack: i128 = (s.den as i128) - (s.num as i128);
    proof {
        assert(-(0xffff_ffff * 0xffff_ffff) <= v.num * slack <= 0xffff_ffff * 0xffff_ffff)
            by (nonlinear_arith)
            requires
                0 <= v.num <= 0xffff_ffff,
                -0xffff_ffff <= slack <= 0xffff_ffff,
        ;
    }
    let lift: i128 = (v.num as i128) * slack;
    let base: i128 = lift * (whole as i128);
    let den: i128 = (den_product as i128) * (whole as i128);
    let (r, g, b): (i128, i128, i128) = if sector < 1 {
        (chroma, second, 0)
    } else if sector < 2 {
        (second, chroma, 0)
    } else if sector < 3 {
        (0, chroma, second)
    } else if sector < 4 {
        (0, second, chroma)
    } else if sector < 5 {
        (second, 0, chroma)
    } else {
        (chroma, 0, second)
    };
    Rgb { r: r + base, g: g + base, b: b + base, den }
}

/// With saturation and value between zero and one, every channel of the
/// colour lies between zero and one.
pub proof fn lemma_hsv_unit_range(h: Ratio, s: Ratio, v: Ratio)
    requires
        h.wf(),
        s.wf(),
        v.wf(),
        s.num <= s.den,
        v.num <= v.den,
    ensures
        hsv_rgb(h, s, v).in_unit_range(),
        0 <= hsv_channels(h, s, v).0 <= hsv_den(h, s, v),
        0 <= hsv_channels(h, s, v).1 <= hsv_den(h, s, v),
        0 <= hsv_channels(h, s, v).2 <= hsv_den(h, s, v),
{
    lemma_hsv_parts_bounds(h, s, v);
    lemma_hsv_value_is_top(h, s, v);
    lemma_product_bound(
        v.num as int,
        s.den as int,
        h.den as int,
        v.den as int,
        s.den as int,
        h.den as int,
    );
}

/// Chroma and base add up to the value: `v * s + (v - v * s) == v`.
pub proof fn lemma_hsv_value_is_top(h: Ratio, s: Ratio, v: Ratio)
    ensures
        hsv_chroma(h, s, v) + hsv_base(h, s, v) == v.num * s.den * h.den,
{
    assert(v.num * s.num * h.den + v.num * (s.den - s.num) * h.den == v.num * s.den * h.den)
        by (nonlinear_arith);
}

/// A hue of one full turn gives the colour of hue zero.
pub proof fn lemma_hsv_full_turn(h: Ratio, s: Ratio, v: Ratio)
    requires
        h.wf(),
        h.num == h.den,
    ensures
        hsv_channels(h, s, v) == hsv_channels(Ratio { num: 0, den: h.den }, s, v),
        hsv_rgb(h, s, v) == hsv_rgb(Ratio { num: 0, den: h.den }, s, v),
{
    let start = Ratio { num: 0, den: h.den };
    assert(hue_sector(h) == 6) by (nonlinear_arith)
        requires
            h.den > 0,
            h.num == h.den,
            hue_sector(h) == (6 * h.num) / (h.den as int),
    ;
    assert((6 * h.num) % (2 * h.den) == 0) by (nonlinear_arith)
        requires
            h.den > 0,
            h.num == h.den,
    ;
    assert(hue_ramp(h) == 0);
    assert(hue_sector(start) == 0);
    assert(hue_ramp(start) == 0);
    assert(hsv_second(h, s, v) == 0) by (nonlinear_arith)
        requires
            hue_ramp(h) == 0,
            hsv_second(h, s, v) == v.num * s.num * hue_ramp(h),
    ;
    assert(hsv_second(start, s, v) == 0) by (nonlinear_arith)
        requires
            hue_ramp(start) == 0,
            hsv_second(start, s, v) == v.num * s.num * hue_ramp(start),
    ;
}

/// The largest channel is the value `v` and the smallest is `v - v * s`:
/// no channel leaves that interval, and both ends are taken.
pub proof fn lemma_hsv_extremes(h: Ratio, s: Ratio, v: Ratio)
    requires
        h.wf(),
    ensures
        ({
            let (r, g, b) = hsv_channels(h, s, v);
            let low = hsv_base(h, s, v);
            let high = v.num * s.den * h.den;
            &&& low <= r <= high
            &&& low <= g <= high
            &&& low <= b <= high
            &&& r == high || g == high || b == high
            &&& r == low || g == low || b == low
        }),
{
    lemma_hsv_parts_bounds(h, s, v);
    lemma_hsv_value_is_top(h, s, v);
}

/// Without saturation the colour is the grey of the value, whatever the hue.
pub proof fn lemma_hsv_gray(h: Ratio, s: Ratio, v: Ratio)
    requires
        h.wf(),
        s.num == 0,
    ensures
        ({
            let (r, g, b) = hsv_channels(h, s, v);
            r == g && g == b && b == v.num * s.den * h.den
        }),
{
    lemma_hsv_parts_bounds(h, s, v);
    lemma_hsv_value_is_top(h, s, v);
    assert(hsv_chroma(h, s, v) == 0) by (nonlinear_arith)
        requires
            s.num == 0,
            hsv_chroma(h, s, v) == v.num * s.num * h.den,
    ;
}

/// At no turn, a third of a turn and two thirds of a turn the hue is pure
/// red, pure green and pure blue: that channel is the value `v`, and the
/// other two are `v - v * s`.
pub proof fn lemma_hsv_primaries(h: Ratio, s: Ratio, v: Ratio)
    requires
        h.wf(),
    ensures
        ({
            let (r, g, b) = hsv_channels(h, s, v);
            let low = hsv_base(h, s, v);
            let high = v.num * s.den * h.den;
            &&& h.num == 0 ==> r == high && g == low && b == low
            &&& 3 * h.num == h.den ==> r == low && g == high && b == low
            &&& 3 * h.num == 2 * h.den ==> r == low && g == low && b == high
        }),
{
    lemma_hsv_value_is_top(h, s, v);
    let six = 6 * h.num;
    let den = h.den as int;
    if h.num == 0 || 3 * h.num == h.den || 3 * h.num == 2 * h.den {
        assert(six % (2 * den) == 0 && (six == 0 ==> six / den == 0) && (six == 2 * den ==> six
            / den == 2) && (six == 4 * den ==> six / den == 4)) by (nonlinear_arith)
            requires
                den > 0,
                six == 0 || six == 2 * den || six == 4 * den,
        ;
        assert(hue_ramp(h) == 0);
        assert(hsv_second(h, s, v) == 0) by (nonlinear_arith)
            requires
                hue_ramp(h) == 0,
                hsv_second(h, s, v) == v.num * s.num * hue_ramp(h),
        ;
    }
}

/// The colour depends on the hue as a number, not on how the fraction is
/// written: with numerator and denominator both multiplied by `k`, every
/// numerator of the colour and its denominator are multiplied by `k`, which
/// leaves every channel as it was.
pub proof fn lemma_hsv_hue_scaling(h: Ratio, k: u32, s: Ratio, v: Ratio)
    requires
        h.wf(),
        k > 0,
        k * h.num <= u32::MAX,
        k * h.den <= u32::MAX,
    ensures
        ({
            let scaled = Ratio { num: (k * h.num) as u32, den: (k * h.den) as u32 };
            let (r, g, b) = hsv_channels(h, s, v);
            &&& hsv_channels(scaled, s, v) == (k * r, k * g, k * b)
            &&& hsv_den(scaled, s, v) == k * hsv_den(h, s, v)
            &&& hsv_rgb(scaled, s, v).same_color(hsv_rgb(h, s, v))
        }),
{
    let scaled = Ratio { num: (k * h.num) as u32, den: (k * h.den) as u32 };
    let kk = k as int;
    let six = 6 * h.num;
    let den = h.den as int;
    assert(kk * den > 0) by (nonlinear_arith)
        requires
            kk > 0,
            den > 0,
    ;
    assert(6 * (kk * h.num) == kk * six && 2 * (kk * den) == kk * (2 * den))
        by (nonlinear_arith)
        requires
            six == 6 * h.num,
    ;
    lemma_div_multiples_vanish_quotient(kk, six, den);
    assert(hue_sector(scaled) == hue_sector(h));
    lemma_truncate_middle(six, kk, 2 * den);
    assert(hue_ramp(scaled) == kk * hue_ramp(h)) by {
        let along = six % (2 * den);
        assert((6 * scaled.num) % (2 * scaled.den) == kk * along);
        assert(kk * along <= kk * den <==> along <= den) by (nonlinear_arith)
            requires
                kk > 0,
        ;
        assert(2 * (kk * den) - kk * along == kk * (2 * den - along)) by (nonlinear_arith);
    }
    let vs = v.num * s.num;
    assert(hsv_chroma(scaled, s, v) == kk * hsv_chroma(h, s, v)) by (nonlinear_arith)
        requires
            hsv_chroma(scaled, s, v) == vs * (kk * den),
            hsv_chroma(h, s, v) == vs * den,
    ;
    assert(hsv_second(scaled, s, v) == kk * hsv_second(h, s, v)) by (nonlinear_arith)
        requires
            hsv_second(scaled, s, v) == vs * (kk * hue_ramp(h)),
            hsv_second(h, s, v) == vs * hue_ramp(h),
    ;
    let lift = v.num * (s.den - s.num);
    assert(hsv_base(scaled, s, v) == kk * hsv_base(h, s, v)) by (nonlinear_arith)
        requires
            hsv_base(scaled, s, v) == lift * (kk * den),
            hsv_base(h, s, v) == lift * den,
    ;
    let dd = v.den * s.den;
    assert(hsv_den(scaled, s, v) == kk * hsv_den(h, s, v)) by (nonlinear_arith)
        requires
            hsv_den(scaled, s, v) == dd * (kk * den),
            hsv_den(h, s, v) == dd * den,
    ;
    let (r, g, b) = hsv_channels(h, s, v);
    let c = hsv_chroma(h, s, v);
    let x = hsv_second(h, s, v);
    let m = hsv_base(h, s, v);
    assert(kk * (c + m) == kk * c + kk * m && kk * (x + m) == kk * x + kk * m)
        by (nonlinear_arith);
    assert(hsv_channels(scaled, s, v) == (kk * r, kk * g, kk * b));
    lemma_hsv_parts_bounds(h, s, v);
    lemma_hsv_parts_bounds(scaled, s, v);
    let d = hsv_den(h, s, v);
    assert((kk * r) * d == r * (kk * d) && (kk * g) * d == g * (kk * d) && (kk * b) * d == b * (kk
        * d)) by (nonlinear_arith);
}

} // verus!

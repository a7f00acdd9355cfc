//! Color conversion between RGB triples and the hue/saturation/lightness
//! space used by the vendor protocols.
//!
//! Hue is measured in degrees `0..360`, saturation and lightness in percent
//! `0..=100`, and the RGB components are `0..=255`.  All arithmetic is exact
//! integer arithmetic: intermediate values are scaled rationals with fixed
//! denominators, and every final component is rounded to the nearest integer.

use vstd::prelude::*;

verus! {

/// Absolute value of an integer.
pub open spec fn abs_i(x: int) -> int {
    if x < 0 {
        -x
    } else {
        x
    }
}

/// `a / b` rounded to the nearest integer (halves round up), for `a >= 0`,
/// `b > 0`.
pub open spec fn round_div(a: int, b: int) -> int {
    (2 * a + b) / (2 * b)
}

/// Largest of three integers.
pub open spec fn max3(a: int, b: int, c: int) -> int {
    if a >= b && a >= c {
        a
    } else if b >= c {
        b
    } else {
        c
    }
}

/// Smallest of three integers.
pub open spec fn min3(a: int, b: int, c: int) -> int {
    if a <= b && a <= c {
        a
    } else if b <= c {
        b
    } else {
        c
    }
}

/// Chroma of `(s, l)`, scaled by `10000`: `C = (1 - |2L - 1|) * S` with
/// `S = s/100`, `L = l/100`.
pub open spec fn chroma10k(s: int, l: int) -> int {
    (100 - abs_i(2 * l - 100)) * s
}

/// The secondary component `X = C * (1 - |(H/60 mod 2) - 1|)`, scaled by
/// `1_200_000` (`h` reduced modulo 360 already).
pub open spec fn x_component(h: int, c: int) -> int {
    2 * c * (60 - abs_i(h % 120 - 60))
}

/// The offset `m = L - C/2`, scaled by `1_200_000`.
pub open spec fn m_offset(l: int, c: int) -> int {
    12000 * l - 60 * c
}

/// One RGB channel from a scaled fraction: `round((v + m) * 255 / 1_200_000)`.
pub open spec fn channel_of(v: int, m: int) -> int {
    round_div((v + m) * 255, 1200000)
}

/// The unrounded channel triple for hue `h` (already reduced mod 360), as
/// scaled fractions with denominator `1_200_000`, before the `m` offset.
pub open spec fn sextant_triple(h: int, c: int) -> (int, int, int) {
    let cd = 120 * c;
    let x = x_component(h, c);
    if h < 60 {
        (cd, x, 0)
    } else if h < 120 {
        (x, cd, 0)
    } else if h < 180 {
        (0, cd, x)
    } else if h < 240 {
        (0, x, cd)
    } else if h < 300 {
        (x, 0, cd)
    } else {
        (cd, 0, x)
    }
}

/// The HSL-to-RGB conversion on integers.
pub open spec fn spec_hsl_to_rgb(h: int, s: int, l: int) -> (int, int, int) {
    let hh = h % 360;
    let c = chroma10k(s, l);
    let m = m_offset(l, c);
    let t = sextant_triple(hh, c);
    (channel_of(t.0, m), channel_of(t.1, m), channel_of(t.2, m))
}

/// Lightness of an RGB triple: `round((max + min) / 2 / 255 * 100)`.
pub open spec fn spec_lightness(r: int, g: int, b: int) -> int {
    round_div((max3(r, g, b) + min3(r, g, b)) * 10, 51)
}

/// Saturation denominator: `max + min` below 50% lightness, `510 - max - min`
/// above.
pub open spec fn sat_denominator(mx: int, mn: int) -> int {
    if mx + mn <= 255 {
        mx + mn
    } else {
        510 - (mx + mn)
    }
}

/// Hue numerator (degrees times the spread `d`), already shifted into
/// `[0, 360 * d]`.
pub open spec fn hue_numerator(r: int, g: int, b: int) -> int {
    let mx = max3(r, g, b);
    let d = mx - min3(r, g, b);
    if mx == r {
        if g >= b {
            60 * (g - b)
        } else {
            360 * d - 60 * (b - g)
        }
    } else if mx == g {
        120 * d + 60 * (b - r)
    } else {
        240 * d + 60 * (r - g)
    }
}

/// The RGB-to-HSL conversion on integers.
pub open spec fn spec_rgb_to_hsl(r: int, g: int, b: int) -> (int, int, int) {
    let mx = max3(r, g, b);
    let mn = min3(r, g, b);
    let l = spec_lightness(r, g, b);
    if mx == mn {
        (0, 0, l)
    } else {
        let d = mx - mn;
        let s = round_div(100 * d, sat_denominator(mx, mn));
        let h0 = round_div(hue_numerator(r, g, b), d);
        let h = if h0 == 360 {
            0
        } else {
            h0
        };
        (h, s, l)
    }
}

/// Rounded division stays within half of the divisor of the exact quotient:
/// `2*a - b < 2*b*round_div(a, b) <= 2*a + b`.
pub proof fn lemma_round_div_close(a: int, b: int)
    requires
        0 <= a,
        1 <= b,
    ensures
        2 * a - b < 2 * b * round_div(a, b),
        2 * b * round_div(a, b) <= 2 * a + b,
{
    vstd::arithmetic::div_mod::lemma_fundamental_div_mod(2 * a + b, 2 * b);
    vstd::arithmetic::div_mod::lemma_mod_bound(2 * a + b, 2 * b);
}

/// Rounded division is monotone in the dividend.
pub proof fn lemma_round_div_ordered(a1: int, a2: int, b: int)
    requires
        a1 <= a2,
        1 <= b,
    ensures
        round_div(a1, b) <= round_div(a2, b),
{
    vstd::arithmetic::div_mod::lemma_div_is_ordered(2 * a1 + b, 2 * a2 + b, 2 * b);
}

/// Rounded division on machine integers.
fn round_u64(a: u64, b: u64) -> (r: u64)
    requires
        1 <= b,
        a < 0x2000000000000000,
        b < 0x2000000000000000,
    ensures
        r as int == round_div(a as int, b as int),
{
    (2 * a + b) / (2 * b)
}

/// Bounds of the chroma value needed to keep every channel inside `[0, 255]`.
proof fn lemma_chroma_bounds(s: int, l: int)
    requires
        0 <= s <= 100,
        0 <= l <= 100,
    ensures
        0 <= chroma10k(s, l) <= 10000,
        chroma10k(s, l) <= 200 * l,
        chroma10k(s, l) <= 20000 - 200 * l,
{
    let w = 100 - abs_i(2 * l - 100);
    assert(0 <= w <= 100);
    assert(0 <= w * s <= 10000) by (nonlinear_arith)
        requires
            0 <= w <= 100,
            0 <= s <= 100,
    ;
    if l <= 50 {
        assert(w == 2 * l);
        assert(2 * l * s <= 200 * l) by (nonlinear_arith)
            requires
                0 <= l,
                0 <= s <= 100,
        ;
        assert(2 * l * s <= 20000 - 200 * l) by (nonlinear_arith)
            requires
                0 <= l <= 50,
                0 <= s <= 100,
        ;
    } else {
        assert(w == 200 - 2 * l);
        assert((200 - 2 * l) * s <= 20000 - 200 * l) by (nonlinear_arith)
            requires
                50 < l <= 100,
                0 <= s <= 100,
        ;
        assert((200 - 2 * l) * s <= 200 * l) by (nonlinear_arith)
            requires
                50 < l <= 100,
                0 <= s <= 100,
        ;
    }
}

/// The secondary component lies between `0` and the scaled chroma.
proof fn lemma_x_bounds(h: int, c: int)
    requires
        0 <= h < 360,
        0 <= c,
    ensures
        0 <= x_component(h, c) <= 120 * c,
{
    let hm = h % 120;
    assert(0 <= hm < 120) by {
        vstd::arithmetic::div_mod::lemma_mod_bound(h, 120);
    }
    assert(0 <= 60 - abs_i(hm - 60) <= 60);
    assert(0 <= 2 * c * (60 - abs_i(hm - 60)) <= 120 * c) by (nonlinear_arith)
        requires
            0 <= c,
            0 <= 60 - abs_i(hm - 60) <= 60,
    ;
}

/// Any scaled fraction in `[0, 1_200_000]` rounds to a channel in `[0, 255]`.
proof fn lemma_channel_bounds(v: int, m: int)
    requires
        0 <= v + m <= 1200000,
    ensures
        0 <= channel_of(v, m) <= 255,
{
    let a = (v + m) * 255;
    assert(0 <= a <= 306000000) by (nonlinear_arith)
        requires
            0 <= v + m <= 1200000,
            a == (v + m) * 255,
    ;
    assert(0 <= (2 * a + 1200000) / 2400000 <= 255) by (nonlinear_arith)
        requires
            0 <= a <= 306000000,
    ;
}

/// Converts hue, saturation and lightness to an RGB triple.
///
/// `h` is degrees in `[0, 360]` (360 wraps to 0), `s` and `v` are percent in
/// `[0, 100]`.
pub fn hsv_to_rgb(h: i64, s: i64, v: i64) -> (rgb: (u8, u8, u8))
    requires
        0 <= h <= 360,
        0 <= s <= 100,
        0 <= v <= 100,
    ensures
        (rgb.0 as int, rgb.1 as int, rgb.2 as int) == spec_hsl_to_rgb(h as int, s as int, v as int),
{
    let hh: u64 = (h % 360) as u64;
    let l: u64 = v as u64;
    let su: u64 = s as u64;
    let w: u64 = if l <= 50 {
        2 * l
    } else {
        200 - 2 * l
    };
    assert(w == 100 - abs_i(2 * (l as int) - 100));
    assert(w * su <= 10000) by (nonlinear_arith)
        requires
            0 <= w <= 100,
            0 <= su <= 100,
    ;
    let c: u64 = w * su;
    proof {
        lemma_chroma_bounds(su as int, l as int);
    }
    let hm: u64 = hh % 120;
    let dist: u64 = if hm <= 60 {
        60 - hm
    } else {
        hm - 60
    };
    assert(dist == abs_i((hh as int) % 120 - 60)) by {
        vstd::arithmetic::div_mod::lemma_mod_bound(hh as int, 120);
    }
    assert(2 * c * (60 - dist) <= 1200000) by (nonlinear_arith)
        requires
            0 <= c <= 10000,
            0 <= dist <= 60,
    ;
    let x: u64 = 2 * c * (60 - dist);
    let cd: u64 = 120 * c;
    proof {
        lemma_x_bounds(hh as int, c as int);
    }
    let m: u64 = 12000 * l - 60 * c;
    assert(m as int == m_offset(l as int, c as int));
    let sext: u64 = hh / 60;
    let (t0, t1, t2): (u64, u64, u64) = if sext == 0 {
        (cd, x, 0)
    } else if sext == 1 {
        (x, cd, 0)
    } else if sext == 2 {
        (0, cd, x)
    } else if sext == 3 {
        (0, x, cd)
    } else if sext == 4 {
        (x, 0, cd)
    } else {
        (cd, 0, x)
    };
    assert((t0 as int, t1 as int, t2 as int) == sextant_triple(hh as int, c as int));
    proof {
        lemma_channel_bounds(t0 as int, m as int);
        lemma_channel_bounds(t1 as int, m as int);
        lemma_channel_bounds(t2 as int, m as int);
    }
    let r: u64 = round_u64((t0 + m) * 255, 1200000);
    let g: u64 = round_u64((t1 + m) * 255, 1200000);
    let b: u64 = round_u64((t2 + m) * 255, 1200000);
    (r as u8, g as u8, b as u8)
}

/// Converts an RGB triple to hue, saturation and lightness, with hue in
/// `[0, 360)` and saturation and lightness in `[0, 100]`.
pub fn rgb_to_hsv(r: u8, g: u8, b: u8) -> (hsl: (i64, i64, i64))
    ensures
        (hsl.0 as int, hsl.1 as int, hsl.2 as int) == spec_rgb_to_hsl(
            r as int,
            g as int,
            b as int,
        ),
        0 <= hsl.0 < 360,
        0 <= hsl.1 <= 100,
        0 <= hsl.2 <= 100,
{
    let ri: u64 = r as u64;
    let gi: u64 = g as u64;
    let bi: u64 = b as u64;
    let mx: u64 = if ri >= gi && ri >= bi {
        ri
    } else if gi >= bi {
        gi
    } else {
        bi
    };
    let mn: u64 = if ri <= gi && ri <= bi {
        ri
    } else if gi <= bi {
        gi
    } else {
        bi
    };
    assert(mx as int == max3(ri as int, gi as int, bi as int));
    assert(mn as int == min3(ri as int, gi as int, bi as int));
    let l: u64 = round_u64((mx + mn) * 10, 51);
    assert(l <= 100) by {
        assert(round_div((mx as int + mn as int) * 10, 51) <= 100) by (nonlinear_arith)
            requires
                0 <= mx as int + mn as int <= 510,
        ;
    }
    if mx == mn {
        (0, 0, l as i64)
    } else {
        let d: u64 = mx - mn;
        let den: u64 = if mx + mn <= 255 {
            mx + mn
        } else {
            510 - (mx + mn)
        };
        assert(d <= den && den <= 255);
        let s: u64 = round_u64(100 * d, den);
        assert(s <= 100) by {
            assert(round_div(100 * (d as int), den as int) <= 100) by (nonlinear_arith)
                requires
                    1 <= d as int <= den as int,
            ;
        }
        let num: i64 = if mx == ri {
            if gi >= bi {
                60 * (gi as i64 - bi as i64)
            } else {
                360 * (d as i64) - 60 * (bi as i64 - gi as i64)
            }
        } else if mx == gi {
            120 * (d as i64) + 60 * (bi as i64 - ri as i64)
        } else {
            240 * (d as i64) + 60 * (ri as i64 - gi as i64)
        };
        assert(num as int == hue_numerator(ri as int, gi as int, bi as int));
        assert(0 <= num <= 360 * (d as i64));
        let h0: u64 = round_u64(num as u64, d);
        assert(h0 <= 360) by {
            assert(round_div(num as int, d as int) <= 360) by (nonlinear_arith)
                requires
                    1 <= d as int,
                    0 <= num as int <= 360 * (d as int),
            ;
        }
        let h: u64 = if h0 == 360 {
            0
        } else {
            h0
        };
        (h as i64, s as i64, l as i64)
    }
}

/// Law: lightness survives a conversion round trip unchanged.  For every
/// hue, saturation and lightness in range, converting to RGB and back yields
/// exactly the lightness that was put in (and so in particular stays within
/// one unit of it).
pub proof fn lemma_lightness_round_trip(h: int, s: int, l: int)
    requires
        0 <= h <= 360,
        0 <= s <= 100,
        0 <= l <= 100,
    ensures
        ({
            let rgb = spec_hsl_to_rgb(h, s, l);
            spec_rgb_to_hsl(rgb.0, rgb.1, rgb.2).2 == l
        }),
{
    let hh = h % 360;
    assert(0 <= hh < 360) by {
        vstd::arithmetic::div_mod::lemma_mod_bound(h, 360);
    }
    let c = chroma10k(s, l);
    lemma_chroma_bounds(s, l);
    let m = m_offset(l, c);
    let cd = 120 * c;
    lemma_x_bounds(hh, c);
    let x = x_component(hh, c);
    assert(0 <= m);
    assert(cd + m <= 1200000);
    let chi = channel_of(cd, m);
    let cmid = channel_of(x, m);
    let clo = channel_of(0, m);
    lemma_round_div_ordered((0 + m) * 255, (x + m) * 255, 1200000);
    lemma_round_div_ordered((x + m) * 255, (cd + m) * 255, 1200000);
    assert(clo <= cmid && cmid <= chi);
    let rgb = spec_hsl_to_rgb(h, s, l);
    assert(max3(rgb.0, rgb.1, rgb.2) == chi);
    assert(min3(rgb.0, rgb.1, rgb.2) == clo);
    lemma_round_div_close((cd + m) * 255, 1200000);
    lemma_round_div_close((0 + m) * 255, 1200000);
    assert(cd + 2 * m == 24000 * l);
    assert(12240000 * l - 2400000 < 2400000 * (chi + clo));
    assert(2400000 * (chi + clo) <= 12240000 * l + 2400000);
    let n = 20 * (chi + clo) + 51;
    assert(102 * l + 32 <= n && n <= 102 * l + 71);
    vstd::arithmetic::div_mod::lemma_fundamental_div_mod_converse(n, 102, l, n - 102 * l);
    assert(spec_lightness(rgb.0, rgb.1, rgb.2) == n / 102);
}

/// Law: at half lightness, saturation survives a conversion round trip to
/// within one unit.  (Away from half lightness the chroma shrinks and the
/// 8-bit RGB quantisation can move saturation further; the exact extent is
/// a function of the chroma.)
pub proof fn lemma_saturation_round_trip_half_lightness(h: int, s: int)
    requires
        0 <= h <= 360,
        0 <= s <= 100,
    ensures
        ({
            let rgb = spec_hsl_to_rgb(h, s, 50);
            abs_i(spec_rgb_to_hsl(rgb.0, rgb.1, rgb.2).1 - s) <= 1
        }),
{
    let hh = h % 360;
    assert(0 <= hh < 360) by {
        vstd::arithmetic::div_mod::lemma_mod_bound(h, 360);
    }
    let c = chroma10k(s, 50);
    lemma_chroma_bounds(s, 50);
    assert(c == 100 * s);
    let m = m_offset(50, c);
    let cd = 120 * c;
    lemma_x_bounds(hh, c);
    let x = x_component(hh, c);
    let chi = channel_of(cd, m);
    let cmid = channel_of(x, m);
    let clo = channel_of(0, m);
    lemma_round_div_ordered((0 + m) * 255, (x + m) * 255, 1200000);
    lemma_round_div_ordered((x + m) * 255, (cd + m) * 255, 1200000);
    let rgb = spec_hsl_to_rgb(h, s, 50);
    assert(max3(rgb.0, rgb.1, rgb.2) == chi);
    assert(min3(rgb.0, rgb.1, rgb.2) == clo);
    if s == 0 {
        let dd = 60 - abs_i(hh % 120 - 60);
        assert(2 * 0 * dd == 0) by (nonlinear_arith);
        assert(x == 0 && cd == 0);
        assert(rgb.0 == rgb.1 && rgb.1 == rgb.2);
        assert(spec_rgb_to_hsl(rgb.0, rgb.1, rgb.2).1 == 0);
    } else {
        lemma_round_div_close((cd + m) * 255, 1200000);
        lemma_round_div_close((0 + m) * 255, 1200000);
        // The two channel fractions are 600000 +- 6000*s out of 1200000.
        assert(cd + m == 600000 + 6000 * s);
        assert(m == 600000 - 6000 * s);
        let d = chi - clo;
        assert(20 * d > 51 * s - 20);
        assert(20 * d < 51 * s + 20);
        assert(d >= 1);
        assert(chi != clo);
        assert(254 < chi + clo <= 256);
        let den = sat_denominator(chi, clo);
        assert(den == 254 || den == 255);
        let s2 = round_div(100 * d, den);
        lemma_round_div_close(100 * d, den);
        assert(2 * den * s2 <= 200 * d + den);
        assert(200 * d - den < 2 * den * s2);
        assert(s2 < s + 2) by (nonlinear_arith)
            requires
                254 <= den <= 255,
                0 <= s <= 100,
                2 * den * s2 <= 200 * d + den,
                20 * d < 51 * s + 20,
        ;
        assert(s2 > s - 2) by (nonlinear_arith)
            requires
                254 <= den <= 255,
                0 <= s <= 100,
                200 * d - den < 2 * den * s2,
                20 * d > 51 * s - 20,
        ;
        assert(spec_rgb_to_hsl(rgb.0, rgb.1, rgb.2).1 == s2);
    }
}

/// A hue numerator within 130/4 of `255 * hh` rounds back to exactly `hh`.
proof fn lemma_hue_recover(num: int, hh: int)
    requires
        0 <= num,
        0 <= hh < 360,
        1020 * hh - 130 <= 4 * num <= 1020 * hh + 130,
    ensures
        round_div(num, 255) == hh,
{
    lemma_round_div_close(num, 255);
    let h2 = round_div(num, 255);
    assert(510 * h2 > 510 * hh - 510);
    assert(510 * h2 < 510 * hh + 510);
    assert(h2 == hh) by (nonlinear_arith)
        requires
            510 * h2 > 510 * hh - 510,
            510 * h2 < 510 * hh + 510,
    ;
}

/// Law: on pure hues (full saturation, half lightness) the round trip is
/// exact — the conversion to RGB and back returns the hue (reduced modulo
/// 360), saturation 100 and lightness 50 unchanged.
pub proof fn lemma_pure_hue_round_trip(h: int)
    requires
        0 <= h <= 360,
    ensures
        spec_rgb_to_hsl(
            spec_hsl_to_rgb(h, 100, 50).0,
            spec_hsl_to_rgb(h, 100, 50).1,
            spec_hsl_to_rgb(h, 100, 50).2,
        ) == (h % 360, 100int, 50int),
{
    let hh = h % 360;
    assert(0 <= hh < 360) by {
        vstd::arithmetic::div_mod::lemma_mod_bound(h, 360);
    }
    let c = chroma10k(100, 50);
    assert(c == 10000);
    let m = m_offset(50, c);
    assert(m == 0);
    let cd = 120 * c;
    lemma_x_bounds(hh, c);
    let x = x_component(hh, c);
    let chi = channel_of(cd, m);
    let cmid = channel_of(x, m);
    let clo = channel_of(0, m);
    assert(chi == 255) by {
        vstd::arithmetic::div_mod::lemma_fundamental_div_mod_converse(
            613200000,
            2400000,
            255,
            1200000,
        );
    }
    assert(clo == 0) by {
        vstd::arithmetic::div_mod::lemma_fundamental_div_mod_converse(1200000, 2400000, 0, 1200000);
    }
    lemma_round_div_ordered((0 + m) * 255, (x + m) * 255, 1200000);
    lemma_round_div_ordered((x + m) * 255, (cd + m) * 255, 1200000);
    assert(0 <= cmid <= 255);
    let hm = hh % 120;
    if hh < 120 {
        vstd::arithmetic::div_mod::lemma_fundamental_div_mod_converse(hh, 120, 0, hh);
    } else if hh < 240 {
        vstd::arithmetic::div_mod::lemma_fundamental_div_mod_converse(hh, 120, 1, hh - 120);
    } else {
        vstd::arithmetic::div_mod::lemma_fundamental_div_mod_converse(hh, 120, 2, hh - 240);
    }
    let w = 60 - abs_i(hm - 60);
    assert(x == 20000 * w);
    lemma_round_div_close(x * 255, 1200000);
    assert(17 * w - 2 < 4 * cmid);
    assert(4 * cmid <= 17 * w + 2);
    let rgb = spec_hsl_to_rgb(h, 100, 50);
    let mx = max3(rgb.0, rgb.1, rgb.2);
    let mn = min3(rgb.0, rgb.1, rgb.2);
    assert(mx == 255 && mn == 0);
    let d = mx - mn;
    let num = hue_numerator(rgb.0, rgb.1, rgb.2);
    // Each sextant's numerator lies within rounding distance of 255 * hh;
    // at a sextant boundary the maximum channel ties and the neighbouring
    // formula takes over, with the same value.
    if hh < 60 {
        assert(w == hh);
        assert(num == 60 * cmid);
        lemma_hue_recover(num, hh);
    } else if hh < 120 {
        assert(w == 120 - hh);
        if cmid == 255 {
            assert(hh == 60);
            assert(num == 60 * 255);
            lemma_hue_recover(num, hh);
        } else {
            assert(num == 30600 - 60 * cmid);
            lemma_hue_recover(num, hh);
        }
    } else if hh < 180 {
        assert(w == hh - 120);
        assert(num == 30600 + 60 * cmid);
        lemma_hue_recover(num, hh);
    } else if hh < 240 {
        assert(w == 240 - hh);
        if cmid == 255 {
            assert(hh == 180);
            assert(num == 30600 + 60 * 255);
            lemma_hue_recover(num, hh);
        } else {
            assert(num == 61200 - 60 * cmid);
            lemma_hue_recover(num, hh);
        }
    } else if hh < 300 {
        assert(w == hh - 240);
        if cmid == 255 {
            assert(hh == 300);
            assert(false);
        } else {
            assert(num == 61200 + 60 * cmid);
            lemma_hue_recover(num, hh);
        }
    } else {
        assert(w == 360 - hh);
        assert(4 * cmid > 15);
        assert(num == 91800 - 60 * cmid);
        lemma_hue_recover(num, hh);
    }
    assert(round_div(num, d) == hh);
    assert(spec_rgb_to_hsl(rgb.0, rgb.1, rgb.2).0 == hh);
    assert(sat_denominator(mx, mn) == 255);
    assert(round_div(100 * d, 255) == 100) by {
        vstd::arithmetic::div_mod::lemma_fundamental_div_mod_converse(51255, 510, 100, 255);
    }
    assert(spec_lightness(rgb.0, rgb.1, rgb.2) == 50) by {
        vstd::arithmetic::div_mod::lemma_fundamental_div_mod_converse(5151, 102, 50, 51);
    }
}

/// Law: on the gray axis (zero saturation) the round trip is exact — the
/// conversion to RGB and back returns hue 0, saturation 0, and the original
/// lightness.
pub proof fn lemma_gray_round_trip(h: int, l: int)
    requires
        0 <= h <= 360,
        0 <= l <= 100,
    ensures
        ({
            let rgb = spec_hsl_to_rgb(h, 0, l);
            spec_rgb_to_hsl(rgb.0, rgb.1, rgb.2) == (0int, 0int, l)
        }),
{
    let hh = h % 360;
    assert(0 <= hh < 360) by {
        vstd::arithmetic::div_mod::lemma_mod_bound(h, 360);
    }
    assert(chroma10k(0, l) == 0);
    let dd = 60 - abs_i(hh % 120 - 60);
    assert(2 * 0 * dd == 0) by (nonlinear_arith);
    assert(x_component(hh, 0) == 2 * 0 * dd);
    let rgb = spec_hsl_to_rgb(h, 0, l);
    assert(rgb.0 == rgb.1 && rgb.1 == rgb.2);
    lemma_lightness_round_trip(h, 0, l);
}

} // verus!

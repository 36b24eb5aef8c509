use vstd::prelude::*;

use crate::srgb_table::{
    lemma_table_bracket, lemma_threshold_adjacent, lemma_units_range, linear_units,
    linear_units_spec, threshold_units, threshold_units_spec,
};

verus! {

/// One unit of linear light per 2^-20 of full brightness: the fixed-point
/// scale of every linear-space quantity in this crate.
pub const LINEAR_ONE: u64 = 1048576;

/// A display-space color: gamma-encoded 8-bit channels with premultiplied
/// alpha.  This is the form a framebuffer or a texture holds; no blending
/// arithmetic is meaningful on it directly.
#[derive(Clone, Copy, PartialEq, Eq, Structural, Hash, Debug)]
pub struct Srgba {
    pub r: u8,
    pub g: u8,
    pub b: u8,
    pub a: u8,
}

impl Srgba {
    pub fn new(r: u8, g: u8, b: u8, a: u8) -> (c: Srgba)
        ensures
            c == (Srgba { r, g, b, a }),
    {
        Srgba { r, g, b, a }
    }

    /// A color is opaque exactly when its alpha channel is at the maximum.
    pub open spec fn is_opaque_spec(self) -> bool {
        self.a == 255
    }

    pub fn is_opaque(&self) -> (r: bool)
        ensures
            r == self.is_opaque_spec(),
    {
        self.a == 255
    }
}

/// A blend-space color: linear-light channels with premultiplied alpha, in
/// units of 2^-20 (`LINEAR_ONE` is full brightness / full alpha).  All
/// interpolation and compositing arithmetic happens on this form.
#[derive(Clone, Copy, PartialEq, Eq, Structural, Debug)]
pub struct LinearRgba {
    pub r: u64,
    pub g: u64,
    pub b: u64,
    pub a: u64,
}

/// Linear-light value of an 8-bit alpha channel: alpha is gamma-free, so
/// the conversion is the exact scaling `a / 255`, truncated to units.
pub open spec fn alpha_units_spec(a: u8) -> u64 {
    (((a as int) * 1048576) / 255) as u64
}

pub fn alpha_units(a: u8) -> (r: u64)
    ensures
        r == alpha_units_spec(a),
        r <= 1048576,
{
    proof {
        assert((a as int) * 1048576 <= 255 * 1048576) by (nonlinear_arith)
            requires
                a <= 255,
        ;
        assert(255int * 1048576 / 255 == 1048576);
        vstd::arithmetic::div_mod::lemma_div_is_ordered((a as int) * 1048576, 255int * 1048576, 255);
    }
    ((a as u64) * 1048576) / 255
}

/// Number of quantization thresholds among channel bytes `1..=n` that lie
/// at or below the linear value `l`.
pub open spec fn count_thresholds_below(l: u64, n: int) -> int
    decreases n,
{
    if n < 1 {
        0
    } else {
        count_thresholds_below(l, n - 1) + if threshold_units_spec(n as u8) <= l {
            1int
        } else {
            0int
        }
    }
}

/// The gamma-encoded channel byte nearest to the linear value `l`:
/// rounding to nearest in gamma space, saturating at 255 for out-of-range
/// linear input.
pub open spec fn srgb_byte_spec(l: u64) -> u8 {
    count_thresholds_below(l, 255) as u8
}

proof fn lemma_count_bounds(l: u64, n: int)
    requires
        0 <= n,
    ensures
        0 <= count_thresholds_below(l, n) <= n,
    decreases n,
{
    if n >= 1 {
        lemma_count_bounds(l, n - 1);
    }
}

pub fn srgb_byte(l: u64) -> (r: u8)
    ensures
        r == srgb_byte_spec(l),
{
    let mut cnt: u8 = 0;
    let mut s: usize = 1;
    while s <= 255
        invariant
            1 <= s <= 256,
            cnt as int == count_thresholds_below(l, s - 1),
        decreases 256 - s,
    {
        proof {
            lemma_count_bounds(l, s - 1);
        }
        if threshold_units(s as u8) <= l {
            cnt = cnt + 1;
        }
        s = s + 1;
    }
    cnt
}

/// The thresholds grow with the channel byte.
pub proof fn lemma_threshold_mono(i: u8, j: u8)
    requires
        i <= j,
    ensures
        threshold_units_spec(i) <= threshold_units_spec(j),
    decreases j - i,
{
    if i < j {
        lemma_threshold_mono(i, (j - 1) as u8);
        lemma_threshold_adjacent((j - 1) as u8);
    }
}

proof fn lemma_count_upto(l: u64, n: int, s: int)
    requires
        0 <= s <= 255,
        0 <= n <= 255,
        forall|k: int| 1 <= k <= n ==> ((#[trigger] threshold_units_spec(k as u8) <= l) <==> (k <= s)),
    ensures
        count_thresholds_below(l, n) == if n <= s {
            n
        } else {
            s
        },
    decreases n,
{
    if n >= 1 {
        lemma_count_upto(l, n - 1, s);
    }
}

/// Quantizing the linear value of a channel byte recovers the byte: the
/// fixed-point sRGB transfer curve round-trips exactly on 8-bit input.
pub proof fn lemma_srgb_byte_of_linear(s: u8)
    ensures
        srgb_byte_spec(linear_units_spec(s)) == s,
{
    let l = linear_units_spec(s);
    assert forall|k: int|
        1 <= k <= 255 implies ((#[trigger] threshold_units_spec(k as u8) <= l) <==> (k <= s as int)) by {
        if k <= s as int {
            lemma_threshold_mono(k as u8, s);
            lemma_table_bracket(s);
        } else {
            lemma_table_bracket(s);
            lemma_threshold_mono((s + 1) as u8, k as u8);
        }
    }
    lemma_count_upto(l, 255, s as int);
}

/// The 8-bit alpha channel nearest to the linear alpha value `l`: rounding
/// to nearest, saturating at 255.
pub open spec fn alpha_byte_spec(l: u64) -> u8 {
    let v = ((l as int) * 255 + 524288) / 1048576;
    if v > 255 {
        255u8
    } else {
        v as u8
    }
}

pub fn alpha_byte(l: u64) -> (r: u8)
    requires
        l <= 2097152,
    ensures
        r == alpha_byte_spec(l),
{
    let v = (l * 255 + 524288) / 1048576;
    if v > 255 {
        255
    } else {
        v as u8
    }
}

/// Alpha conversion round-trips exactly on 8-bit input.
pub proof fn lemma_alpha_roundtrip(a: u8)
    ensures
        alpha_byte_spec(alpha_units_spec(a)) == a,
{
    let x = (a as int) * 1048576;
    let q = x / 255;
    let r0 = x % 255;
    vstd::arithmetic::div_mod::lemma_fundamental_div_mod(x, 255);
    vstd::arithmetic::div_mod::lemma_mod_bound(x, 255);
    assert(q * 255 + 524288 == 1048576 * (a as int) + (524288 - r0)) by (nonlinear_arith)
        requires
            x == 255 * q + r0,
            x == (a as int) * 1048576,
    ;
    vstd::arithmetic::div_mod::lemma_div_multiples_vanish_fancy(a as int, 524288 - r0, 1048576);
    assert(alpha_units_spec(a) == q);
    assert(((alpha_units_spec(a) as int) * 255 + 524288) / 1048576 == a as int);
}

/// Linear interpolation between two linear-light values at parameter
/// `i / 255`, truncated to units.
pub open spec fn lerp_units_spec(l: u64, r: u64, i: u8) -> int {
    ((l as int) * (255 - i as int) + (r as int) * (i as int)) / 255
}

pub fn lerp_units(l: u64, r: u64, i: u8) -> (res: u64)
    requires
        l <= 1048576,
        r <= 1048576,
    ensures
        res as int == lerp_units_spec(l, r, i),
        res <= 1048576,
{
    proof {
        assert((l as int) * (255 - i as int) + (r as int) * (i as int) <= 1048576 * 255)
            by (nonlinear_arith)
            requires
                l <= 1048576,
                r <= 1048576,
                i <= 255,
        ;
        assert(1048576int * 255 / 255 == 1048576);
        vstd::arithmetic::div_mod::lemma_div_is_ordered(
            (l as int) * (255 - i as int) + (r as int) * (i as int),
            1048576int * 255,
            255,
        );
    }
    (l * (255 - i as u64) + r * (i as u64)) / 255
}

/// Interpolation is exact at the endpoints: parameter 0 yields the left
/// value and parameter 255 the right value, with no truncation loss.
pub proof fn lemma_lerp_endpoints(l: u64, r: u64)
    ensures
        lerp_units_spec(l, r, 0) == l,
        lerp_units_spec(l, r, 255) == r,
{
    vstd::arithmetic::div_mod::lemma_div_by_multiple(l as int, 255);
    vstd::arithmetic::div_mod::lemma_div_by_multiple(r as int, 255);
}

/// The premultiplied "over" operator on linear values: the background
/// scaled by the foreground's remaining transparency, plus the foreground.
pub open spec fn over_units_spec(fg: u64, fg_alpha: u64, bg: u64) -> int {
    ((bg as int) * (1048576 - fg_alpha as int)) / 1048576 + fg as int
}

pub fn over_units(fg: u64, fg_alpha: u64, bg: u64) -> (res: u64)
    requires
        fg <= 1048576,
        fg_alpha <= 1048576,
        bg <= 1048576,
    ensures
        res as int == over_units_spec(fg, fg_alpha, bg),
        res <= 2097152,
{
    proof {
        assert((bg as int) * (1048576 - fg_alpha as int) <= 1048576int * 1048576)
            by (nonlinear_arith)
            requires
                bg <= 1048576,
                fg_alpha <= 1048576,
        ;
        assert(1048576int * 1048576 / 1048576 == 1048576);
        vstd::arithmetic::div_mod::lemma_div_is_ordered(
            (bg as int) * (1048576 - fg_alpha as int),
            1048576int * 1048576,
            1048576,
        );
    }
    (bg * (1048576 - fg_alpha)) / 1048576 + fg
}

/// An opaque foreground hides the background entirely.
pub proof fn lemma_over_opaque(fg: u64, bg: u64)
    ensures
        over_units_spec(fg, 1048576, bg) == fg,
{
    assert((bg as int) * (1048576 - 1048576int) == 0) by (nonlinear_arith);
}

/// A fully transparent foreground leaves the background exactly.
pub proof fn lemma_over_transparent(bg: u64)
    ensures
        over_units_spec(0, 0, bg) == bg,
{
    vstd::arithmetic::div_mod::lemma_div_by_multiple(bg as int, 1048576);
}

/// Conversion of a display-space color to blend space: the sRGB transfer
/// curve on the color channels, plain scaling on alpha.
pub open spec fn linear_of_srgba_spec(c: Srgba) -> LinearRgba {
    LinearRgba {
        r: linear_units_spec(c.r),
        g: linear_units_spec(c.g),
        b: linear_units_spec(c.b),
        a: alpha_units_spec(c.a),
    }
}

pub fn linear_of_srgba(c: Srgba) -> (l: LinearRgba)
    ensures
        l == linear_of_srgba_spec(c),
        l.r <= 1048576,
        l.g <= 1048576,
        l.b <= 1048576,
        l.a <= 1048576,
{
    proof {
        lemma_units_range(c.r);
        lemma_units_range(c.g);
        lemma_units_range(c.b);
    }
    LinearRgba {
        r: linear_units(c.r),
        g: linear_units(c.g),
        b: linear_units(c.b),
        a: alpha_units(c.a),
    }
}

/// Conversion of a blend-space color back to display space: gamma-space
/// rounding on the color channels, plain rounding on alpha.
pub open spec fn srgba_of_linear_spec(l: LinearRgba) -> Srgba {
    Srgba {
        r: srgb_byte_spec(l.r),
        g: srgb_byte_spec(l.g),
        b: srgb_byte_spec(l.b),
        a: alpha_byte_spec(l.a),
    }
}

pub fn srgba_of_linear(l: LinearRgba) -> (c: Srgba)
    requires
        l.a <= 2097152,
    ensures
        c == srgba_of_linear_spec(l),
{
    Srgba { r: srgb_byte(l.r), g: srgb_byte(l.g), b: srgb_byte(l.b), a: alpha_byte(l.a) }
}

/// Display space to blend space and back is the identity: no 8-bit color
/// is disturbed by a round trip through linear arithmetic.
pub proof fn lemma_srgba_roundtrip(c: Srgba)
    ensures
        srgba_of_linear_spec(linear_of_srgba_spec(c)) == c,
{
    lemma_srgb_byte_of_linear(c.r);
    lemma_srgb_byte_of_linear(c.g);
    lemma_srgb_byte_of_linear(c.b);
    lemma_alpha_roundtrip(c.a);
}

/// The mathematically correct gradient sample at position `i / 255`: both
/// endpoints converted to blend space, every channel (alpha included)
/// interpolated there, and the result converted back to display space.
pub open spec fn blend_sample_spec(left: Srgba, right: Srgba, i: u8) -> Srgba {
    let lf = linear_of_srgba_spec(left);
    let rf = linear_of_srgba_spec(right);
    Srgba {
        r: srgb_byte_spec(lerp_units_spec(lf.r, rf.r, i) as u64),
        g: srgb_byte_spec(lerp_units_spec(lf.g, rf.g, i) as u64),
        b: srgb_byte_spec(lerp_units_spec(lf.b, rf.b, i) as u64),
        a: alpha_byte_spec(lerp_units_spec(lf.a, rf.a, i) as u64),
    }
}

pub fn blend_sample(left: Srgba, right: Srgba, i: u8) -> (c: Srgba)
    ensures
        c == blend_sample_spec(left, right, i),
{
    let lf = linear_of_srgba(left);
    let rf = linear_of_srgba(right);
    srgba_of_linear(
        LinearRgba {
            r: lerp_units(lf.r, rf.r, i),
            g: lerp_units(lf.g, rf.g, i),
            b: lerp_units(lf.b, rf.b, i),
            a: lerp_units(lf.a, rf.a, i),
        },
    )
}

/// The intentionally wrong gradient sample: one raw gamma-encoded channel
/// interpolated directly at `i / 255` and rounded to nearest, skipping the
/// conversion to linear light.  Rounding to nearest never lands on an exact
/// half, since the exact value is a multiple of `1 / 255`.
pub open spec fn naive_channel_spec(l: u8, r: u8, i: u8) -> u8 {
    ((2 * ((l as int) * (255 - i as int) + (r as int) * (i as int)) + 255) / 510) as u8
}

pub fn naive_channel(l: u8, r: u8, i: u8) -> (res: u8)
    ensures
        res == naive_channel_spec(l, r, i),
{
    proof {
        assert((l as int) * (255 - i as int) + (r as int) * (i as int) <= 255 * 255)
            by (nonlinear_arith)
            requires
                l <= 255,
                r <= 255,
                i <= 255,
        ;
        assert((2int * (255 * 255) + 255) / 510 == 255);
        vstd::arithmetic::div_mod::lemma_div_is_ordered(
            2 * ((l as int) * (255 - i as int) + (r as int) * (i as int)) + 255,
            2int * (255 * 255) + 255,
            510,
        );
    }
    ((2 * ((l as u64) * (255 - i as u64) + (r as u64) * (i as u64)) + 255) / 510) as u8
}

/// The naive sample applies `naive_channel_spec` to all four raw channels.
pub open spec fn naive_sample_spec(left: Srgba, right: Srgba, i: u8) -> Srgba {
    Srgba {
        r: naive_channel_spec(left.r, right.r, i),
        g: naive_channel_spec(left.g, right.g, i),
        b: naive_channel_spec(left.b, right.b, i),
        a: naive_channel_spec(left.a, right.a, i),
    }
}

pub fn naive_sample(left: Srgba, right: Srgba, i: u8) -> (c: Srgba)
    ensures
        c == naive_sample_spec(left, right, i),
{
    Srgba {
        r: naive_channel(left.r, right.r, i),
        g: naive_channel(left.g, right.g, i),
        b: naive_channel(left.b, right.b, i),
        a: naive_channel(left.a, right.a, i),
    }
}

/// One display-space sample composited over a background fill: both colors
/// go to blend space, every channel passes through the "over" operator, and
/// the result returns to display space.
pub open spec fn over_sample_spec(fg: Srgba, bg: Srgba) -> Srgba {
    let f = linear_of_srgba_spec(fg);
    let g = linear_of_srgba_spec(bg);
    Srgba {
        r: srgb_byte_spec(over_units_spec(f.r, f.a, g.r) as u64),
        g: srgb_byte_spec(over_units_spec(f.g, f.a, g.g) as u64),
        b: srgb_byte_spec(over_units_spec(f.b, f.a, g.b) as u64),
        a: alpha_byte_spec(over_units_spec(f.a, f.a, g.a) as u64),
    }
}

pub fn over_sample(fg: Srgba, bg: Srgba) -> (c: Srgba)
    ensures
        c == over_sample_spec(fg, bg),
{
    let f = linear_of_srgba(fg);
    let g = linear_of_srgba(bg);
    srgba_of_linear(
        LinearRgba {
            r: over_units(f.r, f.a, g.r),
            g: over_units(f.g, f.a, g.g),
            b: over_units(f.b, f.a, g.b),
            a: over_units(f.a, f.a, g.a),
        },
    )
}

/// The correct blend hits its endpoints exactly: the sample at parameter 0
/// is the left endpoint and the sample at parameter 255 the right one, for
/// every endpoint pair.
pub proof fn lemma_blend_sample_endpoints(left: Srgba, right: Srgba)
    ensures
        blend_sample_spec(left, right, 0) == left,
        blend_sample_spec(left, right, 255) == right,
{
    let lf = linear_of_srgba_spec(left);
    let rf = linear_of_srgba_spec(right);
    lemma_lerp_endpoints(lf.r, rf.r);
    lemma_lerp_endpoints(lf.g, rf.g);
    lemma_lerp_endpoints(lf.b, rf.b);
    lemma_lerp_endpoints(lf.a, rf.a);
    lemma_srgba_roundtrip(left);
    lemma_srgba_roundtrip(right);
}

/// Compositing an opaque sample over any background returns the sample
/// unchanged.
pub proof fn lemma_over_sample_opaque(fg: Srgba, bg: Srgba)
    requires
        fg.is_opaque_spec(),
    ensures
        over_sample_spec(fg, bg) == fg,
{
    let f = linear_of_srgba_spec(fg);
    let g = linear_of_srgba_spec(bg);
    assert(f.a == 1048576);
    lemma_over_opaque(f.r, g.r);
    lemma_over_opaque(f.g, g.g);
    lemma_over_opaque(f.b, g.b);
    lemma_over_opaque(f.a, g.a);
    lemma_srgba_roundtrip(fg);
}

/// Compositing a fully transparent sample over a background returns the
/// background exactly.
#[verifier::rlimit(100)]
pub proof fn lemma_over_sample_transparent(bg: Srgba)
    ensures
        over_sample_spec(Srgba { r: 0, g: 0, b: 0, a: 0 }, bg) == bg,
{
    let clear = Srgba { r: 0, g: 0, b: 0, a: 0 };
    let f = linear_of_srgba_spec(clear);
    let g = linear_of_srgba_spec(bg);
    lemma_units_range(0);
    assert(f == (LinearRgba { r: 0u64, g: 0u64, b: 0u64, a: 0u64 }));
    lemma_over_transparent(g.r);
    lemma_over_transparent(g.g);
    lemma_over_transparent(g.b);
    lemma_over_transparent(g.a);
    lemma_srgba_roundtrip(bg);
}

/// Channelwise product of two blend-space colors, as a renderer modulates
/// a texture color by a vertex tint.  The product is meaningful only in
/// linear space; each channel is `x * y` scaled back to units, truncated.
pub open spec fn mul_units_spec(x: u64, y: u64) -> int {
    ((x as int) * (y as int)) / 1048576
}

pub fn mul_units(x: u64, y: u64) -> (res: u64)
    requires
        x <= 1048576,
        y <= 1048576,
    ensures
        res as int == mul_units_spec(x, y),
        res <= 1048576,
{
    proof {
        assert((x as int) * (y as int) <= 1048576int * 1048576) by (nonlinear_arith)
            requires
                x <= 1048576,
                y <= 1048576,
        ;
        assert(1048576int * 1048576 / 1048576 == 1048576);
        vstd::arithmetic::div_mod::lemma_div_is_ordered(
            (x as int) * (y as int),
            1048576int * 1048576,
            1048576,
        );
    }
    (x * y) / 1048576
}

/// A texture color modulated by a vertex tint, channel by channel in blend
/// space.
pub open spec fn modulate_spec(t: LinearRgba, v: LinearRgba) -> LinearRgba {
    LinearRgba {
        r: mul_units_spec(t.r, v.r) as u64,
        g: mul_units_spec(t.g, v.g) as u64,
        b: mul_units_spec(t.b, v.b) as u64,
        a: mul_units_spec(t.a, v.a) as u64,
    }
}

pub fn modulate(t: LinearRgba, v: LinearRgba) -> (m: LinearRgba)
    requires
        t.r <= 1048576,
        t.g <= 1048576,
        t.b <= 1048576,
        t.a <= 1048576,
        v.r <= 1048576,
        v.g <= 1048576,
        v.b <= 1048576,
        v.a <= 1048576,
    ensures
        m == modulate_spec(t, v),
        m.r <= 1048576,
        m.g <= 1048576,
        m.b <= 1048576,
        m.a <= 1048576,
{
    LinearRgba {
        r: mul_units(t.r, v.r),
        g: mul_units(t.g, v.g),
        b: mul_units(t.b, v.b),
        a: mul_units(t.a, v.a),
    }
}

/// Modulating by full white (every channel at full brightness) changes
/// nothing.
pub proof fn lemma_modulate_identity(t: LinearRgba)
    requires
        t.r <= 1048576,
        t.g <= 1048576,
        t.b <= 1048576,
        t.a <= 1048576,
    ensures
        modulate_spec(t, LinearRgba { r: 1048576, g: 1048576, b: 1048576, a: 1048576 }) == t,
{
    vstd::arithmetic::div_mod::lemma_div_by_multiple(t.r as int, 1048576);
    vstd::arithmetic::div_mod::lemma_div_by_multiple(t.g as int, 1048576);
    vstd::arithmetic::div_mod::lemma_div_by_multiple(t.b as int, 1048576);
    vstd::arithmetic::div_mod::lemma_div_by_multiple(t.a as int, 1048576);
}

} // verus!

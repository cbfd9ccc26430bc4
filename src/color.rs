use vstd::prelude::*;

verus! {

/// Returned when a hue, saturation or value lies outside its domain.
#[derive(Clone, Copy, Debug, PartialEq, Eq, Structural)]
pub struct InvalidRange;

/// A colour as three 8-bit channels.
#[derive(Clone, Copy, Debug, PartialEq, Eq, Structural)]
pub struct Rgb {
    pub r: u8,
    pub g: u8,
    pub b: u8,
}

/// Largest hue, in degrees.
pub const MAX_HUE: u32 = 360;

/// Largest saturation and value, in percent.
pub const MAX_PERCENT: u32 = 100;

/// Hue in [0, 360] degrees, saturation and value in [0, 100] percent.
pub open spec fn hsv_in_domain(h: int, s: int, v: int) -> bool {
    0 <= h <= MAX_HUE && 0 <= s <= MAX_PERCENT && 0 <= v <= MAX_PERCENT
}

// The conversion is stated exactly, over integers counted in units of
// 1/600000: with saturation and value in percent and the hue ramp in
// sixtieths, the fractions s/100, v/100 and (1 - |(h/60 mod 2) - 1|) share
// that denominator.

/// The hexagonal-cone ramp `60 * (1 - |((h / 60) mod 2) - 1|)`, in [0, 60].
pub open spec fn hue_ramp(h: int) -> int {
    let d = h % 120 - 60;
    60 - (if d < 0 { -d } else { d })
}

/// Chroma `s/100 * v/100`, in units of 1/600000.
pub open spec fn chroma(s: int, v: int) -> int {
    s * v * 60
}

/// The middle component `chroma * ramp / 60`, in units of 1/600000.
pub open spec fn second(h: int, s: int, v: int) -> int {
    s * v * hue_ramp(h)
}

/// The offset `v/100 - chroma`, in units of 1/600000.
pub open spec fn offset(s: int, v: int) -> int {
    v * 6000 - chroma(s, v)
}

/// The component triple before the offset, chosen by 60-degree hue sector.
pub open spec fn sector_components(h: int, s: int, v: int) -> (int, int, int) {
    let c = chroma(s, v);
    let x = second(h, s, v);
    if h < 60 {
        (c, x, 0)
    } else if h < 120 {
        (x, c, 0)
    } else if h < 180 {
        (0, c, x)
    } else if h < 240 {
        (0, x, c)
    } else if h < 300 {
        (x, 0, c)
    } else {
        (c, 0, x)
    }
}

/// A fraction in units of 1/600000 scaled to 255 and truncated.
pub open spec fn to_channel(part: int) -> int {
    part * 255 / 600000
}

/// The three channels of the colour with hue `h`, saturation `s` and value `v`.
pub open spec fn hsv_channels(h: int, s: int, v: int) -> (int, int, int) {
    let (r, g, b) = sector_components(h, s, v);
    let m = offset(s, v);
    (to_channel(r + m), to_channel(g + m), to_channel(b + m))
}

/// The 24-bit colour word sent on the wire: red in bits 23..16, green in
/// bits 15..8, blue in bits 7..0.
pub open spec fn packed(c: Rgb) -> u32 {
    ((c.r as u32) << 16u32) | ((c.g as u32) << 8u32) | (c.b as u32)
}

/// The channels of `c` as integers.
pub open spec fn channels_of(c: Rgb) -> (int, int, int) {
    (c.r as int, c.g as int, c.b as int)
}

proof fn lemma_parts_bounded(h: int, s: int, v: int)
    requires
        hsv_in_domain(h, s, v),
    ensures
        0 <= hue_ramp(h) <= 60,
        0 <= second(h, s, v) <= chroma(s, v),
        0 <= offset(s, v),
        offset(s, v) + chroma(s, v) == v * 6000,
        v * 6000 <= 600000,
{
    let k = hue_ramp(h);
    assert(0 <= s * v) by (nonlinear_arith)
        requires
            0 <= s,
            0 <= v,
    ;
    assert(0 <= s * v * k <= s * v * 60) by (nonlinear_arith)
        requires
            0 <= s * v,
            0 <= k <= 60,
    ;
    assert(s * v * 60 <= v * 6000) by (nonlinear_arith)
        requires
            0 <= s <= 100,
            0 <= v,
    ;
}

/// Every colour of the HSV domain has its three channels in [0, 255].
pub proof fn lemma_channels_in_byte_range(h: int, s: int, v: int)
    requires
        hsv_in_domain(h, s, v),
    ensures
        0 <= hsv_channels(h, s, v).0 <= 255,
        0 <= hsv_channels(h, s, v).1 <= 255,
        0 <= hsv_channels(h, s, v).2 <= 255,
{
    lemma_parts_bounded(h, s, v);
    let (r, g, b) = sector_components(h, s, v);
    let m = offset(s, v);
    assert forall|p: int| 0 <= p <= 600000 implies 0 <= #[trigger] to_channel(p) <= 255 by {
        assert(0 <= p * 255 <= 600000 * 255) by (nonlinear_arith)
            requires
                0 <= p <= 600000,
        ;
    }
    assert(0 <= r + m <= 600000);
    assert(0 <= g + m <= 600000);
    assert(0 <= b + m <= 600000);
}

/// A colour of value zero is black, whatever its hue and saturation.
pub proof fn lemma_zero_value_is_black(h: int, s: int)
    requires
        hsv_in_domain(h, s, 0),
    ensures
        hsv_channels(h, s, 0) == (0int, 0int, 0int),
{
    assert(s * 0 * 60 == 0 && s * 0 * hue_ramp(h) == 0) by (nonlinear_arith);
}

impl Rgb {
    /// The colour with the given channels.
    pub fn new(r: u8, g: u8, b: u8) -> (c: Rgb)
        ensures
            c.r == r,
            c.g == g,
            c.b == b,
    {
        Rgb { r, g, b }
    }

    /// Converts hue (degrees), saturation and value (percent) to RGB by the
    /// hexagonal-cone model, truncating each channel. The hue sectors are
    /// the six 60-degree ones starting at 0; 360 is red, as 0 is.
    pub fn from_hsv(h: u32, s: u32, v: u32) -> (r: Result<Rgb, InvalidRange>)
        ensures
            r is Ok <==> hsv_in_domain(h as int, s as int, v as int),
            r is Ok ==> channels_of(r->Ok_0) == hsv_channels(h as int, s as int, v as int),
            r is Err ==> r->Err_0 == InvalidRange,
    {
        if h > MAX_HUE || s > MAX_PERCENT || v > MAX_PERCENT {
            return Err(InvalidRange);
        }
        proof {
            lemma_parts_bounded(h as int, s as int, v as int);
            lemma_channels_in_byte_range(h as int, s as int, v as int);
        }
        let (h, s, v) = (h as u64, s as u64, v as u64);
        let sv: u64 = s * v;
        let c: u64 = sv * 60;
        let d: u64 = if h % 120 < 60 { 60 - h % 120 } else { h % 120 - 60 };
        let ramp: u64 = 60 - d;
        assert(ramp == hue_ramp(h as int));
        assert(sv * ramp <= sv * 60) by (nonlinear_arith)
            requires
                ramp <= 60,
        ;
        let x: u64 = sv * ramp;
        let m: u64 = v * 6000 - c;
        let (pr, pg, pb): (u64, u64, u64) = if h < 60 {
            (c, x, 0)
        } else if h < 120 {
            (x, c, 0)
        } else if h < 180 {
            (0, c, x)
        } else if h < 240 {
            (0, x, c)
        } else if h < 300 {
            (x, 0, c)
        } else {
            (c, 0, x)
        };
        Ok(
            Rgb {
                r: ((pr + m) * 255 / 600000) as u8,
                g: ((pg + m) * 255 / 600000) as u8,
                b: ((pb + m) * 255 / 600000) as u8,
            },
        )
    }
}

impl From<Rgb> for u32 {
    fn from(c: Rgb) -> u32 {
        ((c.r as u32) << 16u32) | ((c.g as u32) << 8u32) | (c.b as u32)
    }
}

impl vstd::std_specs::convert::FromSpecImpl<Rgb> for u32 {
    open spec fn obeys_from_spec() -> bool {
        true
    }

    open spec fn from_spec(c: Rgb) -> u32 {
        packed(c)
    }
}

} // verus!

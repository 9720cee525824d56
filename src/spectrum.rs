//! The spectral-value contract and its RGB representation.
use vstd::prelude::*;
use crate::binary32;
use crate::binary32::{
    spec_clamped01, spec_eq, spec_is_nan, spec_le, spec_lt, spec_partial_max, ONE, ZERO,
};

verus! {

/// Bit pattern of `0.0001`, the fixed threshold under which the dominant
/// channel counts as no energy at all.
pub const BLACK_THRESHOLD: u32 = 0x38d1_b717;

/// What light transport asks of any representation of light energy.
pub trait IsSpectrum: Sized + Copy {
    /// The additive identity: no energy.
    fn zero() -> Self;

    /// The multiplicative identity: unit response.
    fn one() -> Self;

    /// Whether the dominant channel is below the black threshold.
    fn is_black(&self) -> bool;

    /// Whether any channel is a NaN.
    fn is_nan(&self) -> bool;

    /// The dominant channel magnitude.
    fn max_channel(&self) -> u32;

    /// Builds this representation from an RGB value.
    fn from_rgb(c: Rgb) -> Self;

    /// Turns this value into an RGB value.
    fn to_rgb(&self) -> Rgb;
}

/// A tristimulus value; each channel is a binary32 bit pattern.
#[derive(Clone, Copy, Debug)]
pub struct Rgb {
    pub r: u32,
    pub g: u32,
    pub b: u32,
}

impl Rgb {
    pub open spec fn spec_new(r: u32, g: u32, b: u32) -> Rgb {
        Rgb { r, g, b }
    }

    /// The left fold of partial maximum over `r`, `g`, `b`.
    pub open spec fn spec_max_channel(self) -> u32 {
        spec_partial_max(spec_partial_max(self.r, self.g), self.b)
    }

    pub open spec fn spec_is_nan(self) -> bool {
        spec_is_nan(self.r) || spec_is_nan(self.g) || spec_is_nan(self.b)
    }

    pub open spec fn spec_is_black(self) -> bool {
        spec_lt(self.spec_max_channel(), BLACK_THRESHOLD)
    }

    pub open spec fn spec_saturated(self) -> Rgb {
        Rgb { r: spec_clamped01(self.r), g: spec_clamped01(self.g), b: spec_clamped01(self.b) }
    }

    /// Channel-wise IEEE-754 equality.
    pub open spec fn spec_eq(self, o: Rgb) -> bool {
        spec_eq(self.r, o.r) && spec_eq(self.g, o.g) && spec_eq(self.b, o.b)
    }

    pub fn new(r: u32, g: u32, b: u32) -> (c: Rgb)
        ensures
            c == Rgb::spec_new(r, g, b),
    {
        Rgb { r, g, b }
    }

    /// Each channel clamped to `[0, 1]`.
    pub fn saturated(&self) -> (c: Rgb)
        ensures
            c == self.spec_saturated(),
    {
        Rgb {
            r: binary32::clamped01(self.r),
            g: binary32::clamped01(self.g),
            b: binary32::clamped01(self.b),
        }
    }
}

impl PartialEq for Rgb {
    fn eq(&self, o: &Rgb) -> (r: bool) {
        binary32::eq(self.r, o.r) && binary32::eq(self.g, o.g) && binary32::eq(self.b, o.b)
    }
}

impl vstd::std_specs::cmp::PartialEqSpecImpl for Rgb {
    open spec fn obeys_eq_spec() -> bool {
        true
    }

    open spec fn eq_spec(&self, o: &Rgb) -> bool {
        self.spec_eq(*o)
    }
}

impl IsSpectrum for Rgb {
    fn zero() -> (c: Rgb)
        ensures
            c == Rgb::spec_new(ZERO, ZERO, ZERO),
    {
        Rgb::new(ZERO, ZERO, ZERO)
    }

    fn one() -> (c: Rgb)
        ensures
            c == Rgb::spec_new(ONE, ONE, ONE),
    {
        Rgb::new(ONE, ONE, ONE)
    }

    fn is_black(&self) -> (r: bool)
        ensures
            r == self.spec_is_black(),
    {
        binary32::lt(self.max_channel(), BLACK_THRESHOLD)
    }

    fn is_nan(&self) -> (r: bool)
        ensures
            r == self.spec_is_nan(),
    {
        binary32::is_nan(self.r) || binary32::is_nan(self.g) || binary32::is_nan(self.b)
    }

    fn max_channel(&self) -> (r: u32)
        ensures
            r == self.spec_max_channel(),
    {
        binary32::partial_max(binary32::partial_max(self.r, self.g), self.b)
    }

    fn from_rgb(c: Rgb) -> (r: Rgb)
        ensures
            r == c,
    {
        c
    }

    fn to_rgb(&self) -> (r: Rgb)
        ensures
            r == *self,
    {
        *self
    }
}

/// No energy is black, and unit response is not: `0.0` lies under the
/// threshold and `1.0` above it.
pub proof fn lemma_black_identities()
    ensures
        Rgb::spec_new(ZERO, ZERO, ZERO).spec_is_black(),
        !Rgb::spec_new(ONE, ONE, ONE).spec_is_black(),
{
}

/// Without a NaN channel, the dominant channel is one of the three channels
/// and no channel exceeds it.
pub proof fn lemma_max_channel_dominates(c: Rgb)
    requires
        !c.spec_is_nan(),
    ensures
        spec_le(c.r, c.spec_max_channel()),
        spec_le(c.g, c.spec_max_channel()),
        spec_le(c.b, c.spec_max_channel()),
        c.spec_max_channel() == c.r || c.spec_max_channel() == c.g || c.spec_max_channel()
            == c.b,
{
}

/// Without a NaN channel, a value is black exactly when every channel is
/// below the black threshold.
pub proof fn lemma_black_iff_all_channels_below(c: Rgb)
    requires
        !c.spec_is_nan(),
    ensures
        c.spec_is_black() <==> (spec_lt(c.r, BLACK_THRESHOLD) && spec_lt(c.g, BLACK_THRESHOLD)
            && spec_lt(c.b, BLACK_THRESHOLD)),
{
}

/// Saturation leaves no NaN, and puts every channel within `[0, 1]`.
pub proof fn lemma_saturated_in_unit_range(c: Rgb)
    ensures
        !c.spec_saturated().spec_is_nan(),
        spec_le(ZERO, c.spec_saturated().r) && spec_le(c.spec_saturated().r, ONE),
        spec_le(ZERO, c.spec_saturated().g) && spec_le(c.spec_saturated().g, ONE),
        spec_le(ZERO, c.spec_saturated().b) && spec_le(c.spec_saturated().b, ONE),
{
}

/// Infinity is not NaN: a value whose channels are all infinite is not NaN.
pub proof fn lemma_infinite_channels_are_not_nan(c: Rgb)
    requires
        binary32::spec_is_infinite(c.r),
        binary32::spec_is_infinite(c.g),
        binary32::spec_is_infinite(c.b),
    ensures
        !c.spec_is_nan(),
{
}

/// Converting an RGB value to the spectral contract and back gives it
/// unchanged.
pub proof fn lemma_rgb_round_trip(c: Rgb, s: Rgb, back: Rgb)
    requires
        call_ensures(<Rgb as IsSpectrum>::from_rgb, (c,), s),
        call_ensures(<Rgb as IsSpectrum>::to_rgb, (&s,), back),
    ensures
        back == c,
{
}

} // verus!

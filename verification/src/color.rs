use vstd::prelude::*;

use crate::fx::{fx_add_raw, fx_approx, fx_mul_raw, fx_sub_raw, Fx, FX_ONE};

verus! {

/// Ghost model of a color: the raw fixed-point value of each channel.
pub ghost struct C3 {
    pub r: int,
    pub g: int,
    pub b: int,
}

/// An RGB color; channel values are unclamped until output encoding.
#[derive(Debug, Clone, Copy, PartialEq, Eq, Structural)]
#[verifier::ext_equal]
pub struct Color {
    pub r: Fx,
    pub g: Fx,
    pub b: Fx,
}

impl View for Color {
    type V = C3;

    open spec fn view(&self) -> C3 {
        C3 { r: self.r@, g: self.g@, b: self.b@ }
    }
}

pub open spec fn c3_add(a: C3, b: C3) -> C3 {
    C3 { r: fx_add_raw(a.r, b.r), g: fx_add_raw(a.g, b.g), b: fx_add_raw(a.b, b.b) }
}

pub open spec fn c3_sub(a: C3, b: C3) -> C3 {
    C3 { r: fx_sub_raw(a.r, b.r), g: fx_sub_raw(a.g, b.g), b: fx_sub_raw(a.b, b.b) }
}

pub open spec fn c3_scale(a: C3, s: int) -> C3 {
    C3 { r: fx_mul_raw(a.r, s), g: fx_mul_raw(a.g, s), b: fx_mul_raw(a.b, s) }
}

/// Componentwise (Hadamard) product.
pub open spec fn c3_mul(a: C3, b: C3) -> C3 {
    C3 { r: fx_mul_raw(a.r, b.r), g: fx_mul_raw(a.g, b.g), b: fx_mul_raw(a.b, b.b) }
}

pub open spec fn c3_approx(a: C3, b: C3) -> bool {
    fx_approx(a.r, b.r) && fx_approx(a.g, b.g) && fx_approx(a.b, b.b)
}

pub open spec fn c3_white() -> C3 {
    C3 { r: FX_ONE as int, g: FX_ONE as int, b: FX_ONE as int }
}

pub open spec fn c3_black() -> C3 {
    C3 { r: 0, g: 0, b: 0 }
}

impl Color {
    pub fn new(r: Fx, g: Fx, b: Fx) -> (c: Color)
        ensures
            c@ == (C3 { r: r@, g: g@, b: b@ }),
    {
        Color { r, g, b }
    }

    pub fn white() -> (c: Color)
        ensures
            c@ == c3_white(),
    {
        Color { r: Fx { raw: FX_ONE }, g: Fx { raw: FX_ONE }, b: Fx { raw: FX_ONE } }
    }

    pub fn black() -> (c: Color)
        ensures
            c@ == c3_black(),
    {
        Color { r: Fx { raw: 0 }, g: Fx { raw: 0 }, b: Fx { raw: 0 } }
    }

    pub fn add(self, other: Color) -> (c: Color)
        ensures
            c@ == c3_add(self@, other@),
    {
        Color { r: self.r.add(other.r), g: self.g.add(other.g), b: self.b.add(other.b) }
    }

    pub fn sub(self, other: Color) -> (c: Color)
        ensures
            c@ == c3_sub(self@, other@),
    {
        Color { r: self.r.sub(other.r), g: self.g.sub(other.g), b: self.b.sub(other.b) }
    }

    /// Multiplication by a scalar.
    pub fn scale(self, s: Fx) -> (c: Color)
        ensures
            c@ == c3_scale(self@, s@),
    {
        Color { r: self.r.mul(s), g: self.g.mul(s), b: self.b.mul(s) }
    }

    /// Componentwise (Hadamard) product.
    pub fn mul(self, other: Color) -> (c: Color)
        ensures
            c@ == c3_mul(self@, other@),
    {
        Color { r: self.r.mul(other.r), g: self.g.mul(other.g), b: self.b.mul(other.b) }
    }

    /// Componentwise equality within the tolerance 1e-4.
    pub fn approx_eq(&self, other: &Color) -> (r: bool)
        ensures
            r == c3_approx(self@, other@),
    {
        self.r.approx_eq(other.r) && self.g.approx_eq(other.g) && self.b.approx_eq(other.b)
    }
}

/// A channel quantized for image output: clamped to [0, 1], scaled by 255
/// and rounded to the nearest whole number.
pub open spec fn channel_byte(a: int) -> int {
    let c = if a < 0 {
        0
    } else if a > FX_ONE {
        FX_ONE as int
    } else {
        a
    };
    (c * 255 + 0x2000_0000) / (FX_ONE as int)
}

impl Color {
    /// The three channels quantized for image output, in red, green, blue
    /// order.
    pub fn rgb_bytes(&self) -> (r: (u8, u8, u8))
        ensures
            r.0 as int == channel_byte(self@.r),
            r.1 as int == channel_byte(self@.g),
            r.2 as int == channel_byte(self@.b),
    {
        (quantize(self.r), quantize(self.g), quantize(self.b))
    }
}

/// One channel clamped, scaled by 255 and rounded to the nearest byte.
fn quantize(a: Fx) -> (r: u8)
    ensures
        r as int == channel_byte(a@),
{
    let c: i64 = if a.raw < 0 {
        0
    } else if a.raw > FX_ONE {
        FX_ONE
    } else {
        a.raw
    };
    ((c * 255 + 0x2000_0000) / FX_ONE) as u8
}

impl Default for Color {
    /// White.
    fn default() -> (c: Color)
        ensures
            c@ == c3_white(),
    {
        Color { r: Fx { raw: FX_ONE }, g: Fx { raw: FX_ONE }, b: Fx { raw: FX_ONE } }
    }
}

} // verus!

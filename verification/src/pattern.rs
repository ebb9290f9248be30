use vstd::prelude::*;

use crate::color::{c3_add, c3_black, c3_scale, c3_sub, c3_white, C3, Color};
use crate::fx::{
    fx_fract_raw, fx_mul_raw, fx_sqrt_raw, Fx, FX_ONE,
};
use crate::matrix::{m_apply_point, m_det, m_eye, m_inv, Matrix};
use crate::point::Point;
use crate::shape::{object_invertible, object_wf, transform_of, Object};
use crate::vector::{lemma_square_nonneg, V3};

verus! {

/// True when the floor of a raw scalar is an even whole number.
pub open spec fn floor_even(a: int) -> bool {
    (a / (FX_ONE as int)) % 2 == 0
}

/// Stripes along x: the first color on even floors of x, the second
/// otherwise.
pub open spec fn stripe_at(c1: C3, c2: C3, p: V3) -> C3 {
    if floor_even(p.x) {
        c1
    } else {
        c2
    }
}

/// A linear blend along x: the first color plus the difference scaled by
/// the fractional part of x.
pub open spec fn gradient_at(c1: C3, c2: C3, p: V3) -> C3 {
    c3_add(c1, c3_scale(c3_sub(c2, c1), fx_fract_raw(p.x)))
}

/// Concentric rings in the xz-plane, alternating with the floor of the
/// distance from the y axis.
pub open spec fn ring_at(c1: C3, c2: C3, p: V3) -> C3 {
    if floor_even(fx_sqrt_raw(crate::fx::fx_add_raw(fx_mul_raw(p.x, p.x), fx_mul_raw(p.z, p.z)))) {
        c1
    } else {
        c2
    }
}

/// Three-dimensional checkers: alternating with the parity of the summed
/// floors of the coordinates.
pub open spec fn checker_at(c1: C3, c2: C3, p: V3) -> C3 {
    if (p.x / (FX_ONE as int) + p.y / (FX_ONE as int) + p.z / (FX_ONE as int)) % 2 == 0 {
        c1
    } else {
        c2
    }
}

/// True when a machine integer is even; the parity of a number and of its
/// magnitude agree.
fn even(n: i64) -> (r: bool)
    requires
        n > i64::MIN,
    ensures
        r == ((n as int) % 2 == 0),
{
    let m = if n < 0 {
        -n
    } else {
        n
    };
    m % 2 == 0
}

/// Stripes along x with their own pattern-space transform.
#[derive(Debug, Clone, Copy, PartialEq)]
pub struct StripePattern {
    pub color1: Color,
    pub color2: Color,
    pub transform: Matrix,
}

/// A linear x blend with its own pattern-space transform.
#[derive(Debug, Clone, Copy, PartialEq)]
pub struct GradientPattern {
    pub color1: Color,
    pub color2: Color,
    pub transform: Matrix,
}

/// Concentric xz rings with their own pattern-space transform.
#[derive(Debug, Clone, Copy, PartialEq)]
pub struct RingPattern {
    pub color1: Color,
    pub color2: Color,
    pub transform: Matrix,
}

/// Three-dimensional checkers with their own pattern-space transform.
#[derive(Debug, Clone, Copy, PartialEq)]
pub struct CheckerPattern {
    pub color1: Color,
    pub color2: Color,
    pub transform: Matrix,
}

/// The closed set of procedural textures a material may carry. `Plain`
/// marks a material that uses its flat color; sampling it is a contract
/// violation.
#[derive(Debug, Clone, Copy, PartialEq)]
pub enum Pattern {
    Plain,
    Stripe(StripePattern),
    Gradient(GradientPattern),
    Ring(RingPattern),
    Checker(CheckerPattern),
}

/// The pattern-space transform of a pattern; the unconfigured slot reports
/// the identity.
pub open spec fn pattern_transform(p: Pattern) -> Matrix {
    match p {
        Pattern::Plain => arbitrary(),
        Pattern::Stripe(s) => s.transform,
        Pattern::Gradient(g) => g.transform,
        Pattern::Ring(r) => r.transform,
        Pattern::Checker(c) => c.transform,
    }
}

/// The color a pattern shows at a pattern-space point.
pub open spec fn pattern_at(p: Pattern, point: V3) -> C3 {
    match p {
        Pattern::Plain => c3_black(),
        Pattern::Stripe(s) => stripe_at(s.color1@, s.color2@, point),
        Pattern::Gradient(g) => gradient_at(g.color1@, g.color2@, point),
        Pattern::Ring(r) => ring_at(r.color1@, r.color2@, point),
        Pattern::Checker(c) => checker_at(c.color1@, c.color2@, point),
    }
}

/// The color a pattern shows on a shape at a world-space point: the point
/// is carried into shape space and then into pattern space.
pub open spec fn pattern_at_object(p: Pattern, o: Object, world_point: V3) -> C3 {
    let object_point = m_apply_point(m_inv(transform_of(o).s(), 4), world_point);
    let pattern_point = m_apply_point(m_inv(pattern_transform(p).s(), 4), object_point);
    pattern_at(p, pattern_point)
}

impl StripePattern {
    pub fn new(color1: Color, color2: Color) -> (r: StripePattern)
        ensures
            r.color1 == color1,
            r.color2 == color2,
            r.transform.wf(),
            r.transform.dimension == 4,
            r.transform.s() == m_eye(4),
    {
        StripePattern { color1, color2, transform: Matrix::eye(4) }
    }

    /// The stripe color at a pattern-space point.
    pub fn color_at(&self, point: Point) -> (r: Color)
        ensures
            r@ == stripe_at(self.color1@, self.color2@, point@),
    {
        if even(point.x.floor_int()) {
            self.color1
        } else {
            self.color2
        }
    }
}

impl Default for StripePattern {
    /// White and black stripes with the identity transform.
    fn default() -> (r: StripePattern)
        ensures
            r.color1@ == c3_white(),
            r.color2@ == c3_black(),
            r.transform.wf(),
            r.transform.dimension == 4,
            r.transform.s() == m_eye(4),
    {
        StripePattern::new(Color::white(), Color::black())
    }
}

impl GradientPattern {
    pub fn new(color1: Color, color2: Color) -> (r: GradientPattern)
        ensures
            r.color1 == color1,
            r.color2 == color2,
            r.transform.wf(),
            r.transform.dimension == 4,
            r.transform.s() == m_eye(4),
    {
        GradientPattern { color1, color2, transform: Matrix::eye(4) }
    }

    /// The blended color at a pattern-space point.
    pub fn color_at(&self, point: Point) -> (r: Color)
        ensures
            r@ == gradient_at(self.color1@, self.color2@, point@),
    {
        self.color1.add(self.color2.sub(self.color1).scale(point.x.fract()))
    }
}

impl Default for GradientPattern {
    /// A white-to-black blend with the identity transform.
    fn default() -> (r: GradientPattern)
        ensures
            r.color1@ == c3_white(),
            r.color2@ == c3_black(),
            r.transform.wf(),
            r.transform.dimension == 4,
            r.transform.s() == m_eye(4),
    {
        GradientPattern::new(Color::white(), Color::black())
    }
}

impl RingPattern {
    pub fn new(color1: Color, color2: Color) -> (r: RingPattern)
        ensures
            r.color1 == color1,
            r.color2 == color2,
            r.transform.wf(),
            r.transform.dimension == 4,
            r.transform.s() == m_eye(4),
    {
        RingPattern { color1, color2, transform: Matrix::eye(4) }
    }

    /// The ring color at a pattern-space point.
    pub fn color_at(&self, point: Point) -> (r: Color)
        ensures
            r@ == ring_at(self.color1@, self.color2@, point@),
    {
        let d = point.x.mul(point.x).add(point.z.mul(point.z));
        proof {
            lemma_square_nonneg(point.x@);
            lemma_square_nonneg(point.z@);
        }
        if even(d.sqrt().floor_int()) {
            self.color1
        } else {
            self.color2
        }
    }
}

impl Default for RingPattern {
    /// White and black rings with the identity transform.
    fn default() -> (r: RingPattern)
        ensures
            r.color1@ == c3_white(),
            r.color2@ == c3_black(),
            r.transform.wf(),
            r.transform.dimension == 4,
            r.transform.s() == m_eye(4),
    {
        RingPattern::new(Color::white(), Color::black())
    }
}

impl CheckerPattern {
    pub fn new(color1: Color, color2: Color) -> (r: CheckerPattern)
        ensures
            r.color1 == color1,
            r.color2 == color2,
            r.transform.wf(),
            r.transform.dimension == 4,
            r.transform.s() == m_eye(4),
    {
        CheckerPattern { color1, color2, transform: Matrix::eye(4) }
    }

    /// The checker color at a pattern-space point.
    pub fn color_at(&self, point: Point) -> (r: Color)
        ensures
            r@ == checker_at(self.color1@, self.color2@, point@),
    {
        let f = point.x.floor_int() + point.y.floor_int() + point.z.floor_int();
        if even(f) {
            self.color1
        } else {
            self.color2
        }
    }
}

impl Default for CheckerPattern {
    /// White and black checkers with the identity transform.
    fn default() -> (r: CheckerPattern)
        ensures
            r.color1@ == c3_white(),
            r.color2@ == c3_black(),
            r.transform.wf(),
            r.transform.dimension == 4,
            r.transform.s() == m_eye(4),
    {
        CheckerPattern::new(Color::white(), Color::black())
    }
}

impl Pattern {
    /// The pattern-space transform; the unconfigured slot reports the
    /// identity.
    pub fn get_transform(&self) -> (r: Matrix)
        ensures
            !(*self is Plain) ==> r == pattern_transform(*self),
            *self is Plain ==> r.s() == m_eye(4) && r.dimension == 4 && r.wf(),
    {
        match self {
            Pattern::Plain => Matrix::eye(4),
            Pattern::Stripe(s) => s.transform,
            Pattern::Gradient(g) => g.transform,
            Pattern::Ring(r) => r.transform,
            Pattern::Checker(c) => c.transform,
        }
    }

    /// Overwrites the pattern-space transform; the unconfigured slot
    /// ignores it.
    pub fn set_transform(&mut self, transform: Matrix)
        ensures
            *old(self) is Plain ==> *final(self) == *old(self),
            !(*old(self) is Plain) ==> pattern_transform(*final(self)) == transform,
            pattern_colors_of(*final(self)) == pattern_colors_of(*old(self)),
            *final(self) is Plain <==> *old(self) is Plain,
    {
        match *self {
            Pattern::Plain => {
            },
            Pattern::Stripe(s) => {
                *self = Pattern::Stripe(StripePattern { color1: s.color1, color2: s.color2, transform });
            },
            Pattern::Gradient(g) => {
                *self = Pattern::Gradient(GradientPattern { color1: g.color1, color2: g.color2, transform });
            },
            Pattern::Ring(r) => {
                *self = Pattern::Ring(RingPattern { color1: r.color1, color2: r.color2, transform });
            },
            Pattern::Checker(c) => {
                *self = Pattern::Checker(CheckerPattern { color1: c.color1, color2: c.color2, transform });
            },
        }
    }

    /// The pattern color at a pattern-space point. Sampling the
    /// unconfigured slot is a contract violation, ruled out by `requires`.
    pub fn color_at(&self, point: Point) -> (r: Color)
        requires
            !(*self is Plain),
        ensures
            r@ == pattern_at(*self, point@),
    {
        match self {
            Pattern::Plain => Color::black(),
            Pattern::Stripe(s) => s.color_at(point),
            Pattern::Gradient(g) => g.color_at(point),
            Pattern::Ring(r) => r.color_at(point),
            Pattern::Checker(c) => c.color_at(point),
        }
    }

    /// The pattern color on a shape at a world-space point: the point is
    /// carried into shape space by the shape's inverse transform and then
    /// into pattern space by the pattern's own inverse transform.
    pub fn color_at_object(&self, object: &Object, point: Point) -> (r: Color)
        requires
            !(*self is Plain),
            object_wf(*object),
            object_invertible(*object),
            pattern_transform(*self).wf(),
            pattern_transform(*self).dimension == 4,
            m_det(pattern_transform(*self).s(), 4) != 0,
        ensures
            r@ == pattern_at_object(*self, *object, point@),
    {
        let object_point = object.get_transform().inverse().mul_point(point);
        let pattern_point = self.get_transform().inverse().mul_point(object_point);
        self.color_at(pattern_point)
    }
}

/// The two colors of a pattern, for stating what a transform change leaves
/// alone; the unconfigured slot has none.
pub open spec fn pattern_colors_of(p: Pattern) -> Option<(C3, C3)> {
    match p {
        Pattern::Plain => Option::None,
        Pattern::Stripe(s) => Option::Some((s.color1@, s.color2@)),
        Pattern::Gradient(g) => Option::Some((g.color1@, g.color2@)),
        Pattern::Ring(r) => Option::Some((r.color1@, r.color2@)),
        Pattern::Checker(c) => Option::Some((c.color1@, c.color2@)),
    }
}

impl Default for Pattern {
    /// The unconfigured slot.
    fn default() -> (r: Pattern)
        ensures
            r is Plain,
    {
        Pattern::Plain
    }
}

} // verus!

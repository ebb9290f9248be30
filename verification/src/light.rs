use vstd::prelude::*;

use crate::color::{c3_white, Color};
use crate::point::Point;
use crate::vector::V3;

verus! {

/// The single point light of a scene: a position and an intensity.
#[derive(Debug, Clone, Copy, PartialEq)]
pub struct PointLight {
    pub position: Point,
    pub intensity: Color,
}

impl PointLight {
    pub fn new(position: Point, intensity: Color) -> (r: PointLight)
        ensures
            r.position == position,
            r.intensity == intensity,
    {
        PointLight { position, intensity }
    }
}

impl Default for PointLight {
    /// A white light at the origin.
    fn default() -> (r: PointLight)
        ensures
            r.position@ == (V3 { x: 0, y: 0, z: 0 }),
            r.intensity@ == c3_white(),
    {
        PointLight { position: Point::default(), intensity: Color::default() }
    }
}

} // verus!

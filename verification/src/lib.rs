use vstd::prelude::*;

pub mod camera;
pub mod canvas;
pub mod color;
pub mod fx;
pub mod intersection;
pub mod light;
pub mod material;
pub mod matrix;
pub mod pattern;
pub mod plane;
pub mod point;
pub mod ray;
pub mod shape;
pub mod sphere;
pub mod transformations;
pub mod vector;
pub mod world;

pub use camera::Camera;
pub use canvas::Canvas;
pub use color::Color;
pub use intersection::{Computations, Intersection};
pub use light::PointLight;
pub use material::Material;
pub use matrix::Matrix;
pub use pattern::Pattern;
pub use plane::Plane;
pub use point::Point;
pub use ray::Ray;
pub use shape::Object;
pub use sphere::Sphere;
pub use vector::Vector;
pub use world::World;

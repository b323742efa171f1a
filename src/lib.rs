//! The geometric core of a ray tracer over integer coordinates: points, vectors and
//! matrices, rays and their transformation, ray-sphere and ray-plane intersection,
//! intersection lists with the hit rule and the refraction container stack, and the
//! text of PPM images. Every function is verified against its contract.

pub mod animator;
pub mod canvas;
pub mod intersection;
pub mod matrix;
pub mod object;
pub mod ray;
pub mod shapes;
pub mod text;
pub mod transformation;
pub mod tuple;
pub mod utils;

pub use animator::{Animator, Frame};
pub use intersection::{Intersection, Intersections};
pub use matrix::Matrix;
pub use object::{intersect_world, Object};
pub use ray::Ray;
pub use shapes::{Plane, Shape, Sphere};
pub use tuple::point::Point;
pub use tuple::tuple::Tuple;
pub use tuple::vector::Vector;
pub use utils::{ApproximateEq, One, Zero};

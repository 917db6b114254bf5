//! Geometric primitives over exact integer coordinates: vectors, points,
//! sizes, rectangles, 2D affine and 3D homogeneous transform matrices, and
//! small numeric helper traits.
//!
//! Coordinates are `i64` values; every operation's result is pinned down
//! exactly over the mathematical integers. The coordinate convention is
//! Y-down: `top <= bottom` for an ordinary rectangle, and the `North`
//! direction is `(0, -1)`.

pub mod breaks_ord;
pub mod circle;
pub mod direction;
pub mod ellipse;
pub mod lerp;
pub mod line_segment;
pub mod mat3x2;
pub mod mat4;
pub mod minmax;
pub mod num;
pub mod ordinary_num;
pub mod point;
pub mod quad;
pub mod quantity;
pub mod rect;
pub mod rect_position;
pub mod scalar;
pub mod size;
pub mod split;
pub mod transform;
pub mod transform3d;
pub mod units;
pub mod vec2;
pub mod vec3;
pub mod vec4;
pub mod vector;

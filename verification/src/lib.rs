//! Typed 2D and 3D geometry over exact scalars.
//!
//! Points, vectors, sizes, boxes, scales, translations, rotations and general
//! transform matrices, each tagged with the coordinate space it lives in, so
//! that values from different spaces cannot be mixed by accident.
//!
//! Coordinates are [`num::Scalar`]s: values that stand for mathematical
//! integers and compute exactly. Every operation states when its result is
//! representable and then returns exactly that result; nothing wraps,
//! saturates or aborts. On this footing the algebra of transforms is proved
//! once and for all in [`identities`]: composition is associative, the inverse
//! of a product is the product of the inverses in the opposite order, a
//! transform whose determinant is one or minus one is undone exactly by its
//! cached inverse, and a point taken there and back returns to where it was.
//! The algebra of rotations in space is proved in [`quaternion`]: the product of
//! two unit quaternions turns a vector as the two do in turn, and the matrix
//! of a unit quaternion has determinant one. The view matrix of a camera is
//! shown in [`frame`] to take the eye to the origin and, for a frame of unit
//! vectors at right angles, to be a rigid motion.
//!
//! A general transform keeps its matrix together with the matrix for the way
//! back; both are written at construction and never recomputed.
pub mod arith;
pub mod bounds;
pub mod frame;
pub mod homogen;
pub mod identities;
pub mod mask;
pub mod model;
pub mod num;
pub mod point;
pub mod prelude;
pub mod quaternion;
pub mod ray;
pub mod rotation;
pub mod scale;
pub mod size;
pub mod space;
pub mod transform;
pub mod transform2;
pub mod transform3;
pub mod translation;
pub mod units;
pub mod vector;

//! The names most programs need, in one place.
pub use crate::bounds::{Box2, Box3};
pub use crate::mask::{Mask2, Mask3};
pub use crate::num::{Ceil, Floor, One, Round, Scalar, Zero};
pub use crate::point::{Point2, Point3};
pub use crate::ray::Ray;
pub use crate::rotation::{Rotation2, Rotation3};
pub use crate::scale::Scale;
pub use crate::size::{Size2, Size3};
pub use crate::space::{Axis2, Axis3};
pub use crate::transform::{Transform, Transformation};
pub use crate::translation::{Translation2, Translation3};
pub use crate::units::{Angle, Length, Time};
pub use crate::vector::{Normal2, Normal3, Vector2, Vector3};

//! The contracts shared by every kind of transformation: scales,
//! translations, rotations and general matrices.
use vstd::prelude::*;

verus! {

/// Applying a transformation to one kind of geometric value. A transformation
/// implements this once for each kind it applies to: points, vectors, normals,
/// boxes, sizes, lengths.
pub trait Transform<A> {
    type Output;

    /// Whether the image of `v` can be computed without leaving the scalar type.
    spec fn transform_req(&self, v: A) -> bool;

    /// Whether `r` is the image of `v`.
    spec fn transform_ensures(&self, v: A, r: Self::Output) -> bool;

    fn transform(&self, v: A) -> (r: Self::Output)
        requires
            self.transform_req(v),
        ensures
            self.transform_ensures(v, r),
    ;
}

/// A map from `Src` space to `Dst` space that has a neutral element and can be
/// undone.
pub trait Transformation<T, Src, Dst>: Sized {
    /// The type of the map back from `Dst` to `Src`.
    type Inverse;

    /// Whether this map leaves every value where it is.
    spec fn is_identity_spec(&self) -> bool;

    /// Whether the inverse can be computed without leaving the scalar type.
    spec fn inverse_req(&self) -> bool;

    /// Whether `r` is the inverse of this map.
    spec fn inverse_ensures(&self, r: Self::Inverse) -> bool;

    fn identity() -> (r: Self)
        ensures
            r.is_identity_spec(),
    ;

    /// Exact comparison with the identity; no tolerance.
    fn is_identity(&self) -> (b: bool)
        ensures
            b == self.is_identity_spec(),
    ;

    fn inverse(&self) -> (r: Self::Inverse)
        requires
            self.inverse_req(),
        ensures
            self.inverse_ensures(r),
    ;

    fn into_inverse(self) -> (r: Self::Inverse)
        requires
            self.inverse_req(),
        ensures
            self.inverse_ensures(r),
    {
        self.inverse()
    }
}

} // verus!

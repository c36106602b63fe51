use vstd::prelude::*;

verus! {

/// A half-line: the points `origin + t * direction`. The vector type is left
/// to the caller; the direction need not be of unit length.
#[allow(non_snake_case)]
pub struct Ray<V> {
    /// The origin.
    pub A: V,
    /// The direction.
    pub B: V,
}

impl<V: Copy> Ray<V> {
    /// The ray from `origin` along `direction`.
    pub fn new(origin: V, direction: V) -> (r: Self)
        ensures
            r.A == origin,
            r.B == direction,
    {
        Ray { A: origin, B: direction }
    }

    /// The direction the ray was built with.
    pub fn direction(&self) -> (r: V)
        ensures
            r == self.B,
    {
        self.B
    }

    /// The point the ray starts from.
    pub fn origin(&self) -> (r: V)
        ensures
            r == self.A,
    {
        self.A
    }
}

} // verus!

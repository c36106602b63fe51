use vstd::prelude::*;

verus! {

/// The bounce budget of a path: a hit at this depth or deeper absorbs the ray.
pub const MAX_DEPTH: usize = 50;

/// What the radiance estimator does with a ray once the scene was queried.
#[derive(PartialEq, Eq, Structural, Debug, Clone, Copy)]
pub enum Step {
    /// Nothing was hit: the ray takes the background gradient.
    Background,
    /// A surface was hit, but the path is cut off: the ray carries no light.
    Black,
    /// A surface was hit within the budget: its material is asked to scatter.
    Scatter,
}

/// The step after querying the scene for a ray at bounce `depth`, where `hit`
/// tells whether any surface was hit in range.
pub fn after_query(depth: usize, hit: bool) -> (s: Step)
    ensures
        s == Step::Background <==> !hit,
        s == Step::Scatter <==> hit && depth < MAX_DEPTH,
        s == Step::Black <==> hit && depth >= MAX_DEPTH,
{
    if !hit {
        Step::Background
    } else if depth < MAX_DEPTH {
        Step::Scatter
    } else {
        Step::Black
    }
}

/// The depth at which to trace the scattered ray once a material was asked to
/// scatter at bounce `depth`: the next one when it did, `None` when it
/// absorbed the ray (which then carries no light).
pub fn after_scatter(depth: usize, scattered: bool) -> (r: Option<usize>)
    requires
        depth < MAX_DEPTH,
    ensures
        scattered ==> r == Some((depth + 1) as usize),
        !scattered ==> r is None,
{
    if scattered {
        Some(depth + 1)
    } else {
        None
    }
}

} // verus!

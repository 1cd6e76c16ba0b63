use vstd::prelude::*;

verus! {

/// Why a convex-polygon computation refused its input.
#[derive(Debug, Clone, Copy, PartialEq, Eq, Structural)]
pub enum GeometryError {
    /// The raw vertex list failed the convexity gate.
    NotConvex,
    /// A polygon boundary met one segment in more than two distinct points.
    InvariantViolated,
}

} // verus!

//! Decision logic of a planar convex-polygon kernel: the convexity gate, exact
//! deduplication, stable angular ordering, the winding-number containment count, the
//! at-most-two rule for a convex boundary met by a segment, and the emission order of
//! the polygon clipper. Coordinates themselves never enter: callers hand in the signs,
//! keys and meeting points that their arithmetic produced, and get back what they mean.

pub mod clip;
pub mod cycle;
pub mod dedup;
pub mod error;
pub mod order;
pub mod orient;
pub mod polygon;
pub mod winding;

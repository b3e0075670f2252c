//! Integer grid paths (`Point64`, `Path64`, `Paths64`), the lazy path views and clip
//! solutions that the integer engine returns, and the `PolyTree64` hierarchy.
use vstd::prelude::*;

mod clipper;
mod path;
mod paths;
mod poly_tree;

pub use clipper::{ClipSolution64, ClipTreeSolution64};
pub use path::Path64;
pub use poly_tree::PolyTree64;
pub use paths::{paths64_view, LazyPaths64, Paths64};

verus! {

/// Single point on the integer Clipper2 grid; same layout as [`crate::P64`].
pub type Point64 = crate::bridge::P64;

impl crate::bridge::P64 {
    /// Creates a point from coordinates.
    pub fn new(x: i64, y: i64) -> (p: Self)
        ensures
            p.x == x,
            p.y == y,
    {
        Self { x, y }
    }
}

} // verus!

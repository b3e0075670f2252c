//! Double-precision paths (`PointD`, `PathD`, `PathsD`), and the lazy path views and
//! clip solutions that the double engine returns.
//!
//! Coordinates are carried as the bit patterns of their `f64` values (see [`crate::PD`]);
//! these containers never compute with them.
use vstd::prelude::*;

mod clipper;
mod path;
mod paths;
mod poly_tree;

pub use clipper::{ClipSolutionD, ClipTreeSolutionD};
pub use path::PathD;
pub use paths::{pathsd_view, LazyPathsD, PathsD};
pub use poly_tree::PolyTreeD;

verus! {

/// Double-precision point; same layout as [`crate::PD`].
pub type PointD = crate::bridge::PD;

} // verus!

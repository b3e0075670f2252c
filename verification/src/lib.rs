//! Clipper2 polygon clipping: path containers, the flat path-buffer format that
//! crosses the native boundary, clip solutions and polygon-tree traversal.
//!
//! Integer-grid geometry lives in [`clipper64`], double-precision containers in
//! [`clipperd`]; the flat `PathsBlob*` layout and its conversions are in
//! [`paths_blob`]; preorder traversal of a native polygon tree is in [`poly_path`].
use vstd::prelude::*;

pub mod bridge;
pub mod clipper64;
pub mod clipperd;
pub mod paths_blob;
pub mod poly_path;

pub use bridge::{
    ClipperClipType, ClipperEndType, ClipperFillRule, ClipperJoinType,
    ClipperPointInPolygonResult, Exec64, ExecD, PathsBlob64, PathsBlobD, TreeExec64, TreeExecD,
    P64, PD,
};
pub use clipper64::{
    ClipSolution64, ClipTreeSolution64, LazyPaths64, Path64, Paths64, Point64, PolyTree64,
};
pub use clipperd::{
    ClipSolutionD, ClipTreeSolutionD, LazyPathsD, PathD, PathsD, PointD, PolyTreeD,
};
pub use paths_blob::{PathsBlob64Iter, PathsBlobDIter};
pub use poly_path::{PolyCxxNode64, PolyCxxNodeD, PolyCxxPreorderIter64, PolyCxxPreorderIterD};

verus! {

/// Polygon fill rule (non-zero, even-odd, ...), maps to Clipper2 `FillRule`.
#[derive(Clone, Copy, Debug, PartialEq, Eq, Structural, Hash)]
pub enum FillRule {
    /// Even-odd rule.
    EvenOdd,
    /// Non-zero winding rule.
    NonZero,
    /// Positive winding only.
    Positive,
    /// Negative winding only.
    Negative,
}

/// Boolean clip operation between subject and clip paths.
#[derive(Clone, Copy, Debug, PartialEq, Eq, Structural, Hash)]
pub enum ClipType {
    /// No clipping (placeholder).
    NoClip,
    /// Intersection.
    Intersection,
    /// Union.
    Union,
    /// Difference (subject minus clip).
    Difference,
    /// Exclusive OR.
    Xor,
}

/// Vertex join style for offsets and offset-like operations.
#[derive(Clone, Copy, Debug, PartialEq, Eq, Structural, Hash)]
pub enum JoinType {
    /// Square corner join.
    SquareJoin,
    /// Round join.
    RoundJoin,
    /// Miter join.
    MiterJoin,
}

/// End cap / polygon closure mode for open paths in offsetting.
#[derive(Clone, Copy, Debug, PartialEq, Eq, Structural, Hash)]
pub enum EndType {
    /// Closed polygon.
    PolygonEnd,
    /// Open path with joined ends.
    JoinedEnd,
    /// Square end cap.
    SquareEnd,
    /// Round end cap.
    RoundEnd,
}

/// Point-in-polygon classification result.
#[derive(Clone, Copy, Debug, PartialEq, Eq, Structural, Hash)]
pub enum PointInPolygonResult {
    /// Point lies on an edge.
    On,
    /// Point strictly inside.
    Inside,
    /// Point strictly outside.
    Outside,
}

/// The native clip-type value that a [`ClipType`] stands for.
pub open spec fn clip_type_to_native(v: ClipType) -> ClipperClipType {
    match v {
        ClipType::NoClip => ClipperClipType::NoClip,
        ClipType::Intersection => ClipperClipType::Intersection,
        ClipType::Union => ClipperClipType::Union,
        ClipType::Difference => ClipperClipType::Difference,
        ClipType::Xor => ClipperClipType::Xor,
    }
}

/// The native fill-rule value that a [`FillRule`] stands for.
pub open spec fn fill_rule_to_native(v: FillRule) -> ClipperFillRule {
    match v {
        FillRule::EvenOdd => ClipperFillRule::EvenOdd,
        FillRule::NonZero => ClipperFillRule::NonZero,
        FillRule::Positive => ClipperFillRule::Positive,
        FillRule::Negative => ClipperFillRule::Negative,
    }
}

/// The native join-type value that a [`JoinType`] stands for.
pub open spec fn join_type_to_native(v: JoinType) -> ClipperJoinType {
    match v {
        JoinType::SquareJoin => ClipperJoinType::Square,
        JoinType::RoundJoin => ClipperJoinType::Round,
        JoinType::MiterJoin => ClipperJoinType::Miter,
    }
}

/// The native end-type value that an [`EndType`] stands for.
pub open spec fn end_type_to_native(v: EndType) -> ClipperEndType {
    match v {
        EndType::PolygonEnd => ClipperEndType::Polygon,
        EndType::JoinedEnd => ClipperEndType::Joined,
        EndType::SquareEnd => ClipperEndType::Square,
        EndType::RoundEnd => ClipperEndType::Round,
    }
}

/// The classification that a native point-in-polygon result stands for.
pub open spec fn point_in_polygon_from_native(v: ClipperPointInPolygonResult) -> PointInPolygonResult {
    match v {
        ClipperPointInPolygonResult::IsOn => PointInPolygonResult::On,
        ClipperPointInPolygonResult::IsInside => PointInPolygonResult::Inside,
        ClipperPointInPolygonResult::IsOutside => PointInPolygonResult::Outside,
    }
}

impl From<ClipType> for ClipperClipType {
    fn from(value: ClipType) -> (r: Self) {
        match value {
            ClipType::NoClip => ClipperClipType::NoClip,
            ClipType::Intersection => ClipperClipType::Intersection,
            ClipType::Union => ClipperClipType::Union,
            ClipType::Difference => ClipperClipType::Difference,
            ClipType::Xor => ClipperClipType::Xor,
        }
    }
}

impl vstd::std_specs::convert::FromSpecImpl<ClipType> for ClipperClipType {
    open spec fn obeys_from_spec() -> bool {
        true
    }

    open spec fn from_spec(v: ClipType) -> ClipperClipType {
        clip_type_to_native(v)
    }
}

impl From<FillRule> for ClipperFillRule {
    fn from(value: FillRule) -> (r: Self) {
        match value {
            FillRule::EvenOdd => ClipperFillRule::EvenOdd,
            FillRule::NonZero => ClipperFillRule::NonZero,
            FillRule::Positive => ClipperFillRule::Positive,
            FillRule::Negative => ClipperFillRule::Negative,
        }
    }
}

impl vstd::std_specs::convert::FromSpecImpl<FillRule> for ClipperFillRule {
    open spec fn obeys_from_spec() -> bool {
        true
    }

    open spec fn from_spec(v: FillRule) -> ClipperFillRule {
        fill_rule_to_native(v)
    }
}

impl From<JoinType> for ClipperJoinType {
    fn from(value: JoinType) -> (r: Self) {
        match value {
            JoinType::SquareJoin => ClipperJoinType::Square,
            JoinType::RoundJoin => ClipperJoinType::Round,
            JoinType::MiterJoin => ClipperJoinType::Miter,
        }
    }
}

impl vstd::std_specs::convert::FromSpecImpl<JoinType> for ClipperJoinType {
    open spec fn obeys_from_spec() -> bool {
        true
    }

    open spec fn from_spec(v: JoinType) -> ClipperJoinType {
        join_type_to_native(v)
    }
}

impl From<EndType> for ClipperEndType {
    fn from(value: EndType) -> (r: Self) {
        match value {
            EndType::PolygonEnd => ClipperEndType::Polygon,
            EndType::JoinedEnd => ClipperEndType::Joined,
            EndType::SquareEnd => ClipperEndType::Square,
            EndType::RoundEnd => ClipperEndType::Round,
        }
    }
}

impl vstd::std_specs::convert::FromSpecImpl<EndType> for ClipperEndType {
    open spec fn obeys_from_spec() -> bool {
        true
    }

    open spec fn from_spec(v: EndType) -> ClipperEndType {
        end_type_to_native(v)
    }
}

impl From<ClipperPointInPolygonResult> for PointInPolygonResult {
    fn from(value: ClipperPointInPolygonResult) -> (r: Self) {
        match value {
            ClipperPointInPolygonResult::IsOn => PointInPolygonResult::On,
            ClipperPointInPolygonResult::IsInside => PointInPolygonResult::Inside,
            ClipperPointInPolygonResult::IsOutside => PointInPolygonResult::Outside,
        }
    }
}

impl vstd::std_specs::convert::FromSpecImpl<ClipperPointInPolygonResult> for PointInPolygonResult {
    open spec fn obeys_from_spec() -> bool {
        true
    }

    open spec fn from_spec(v: ClipperPointInPolygonResult) -> PointInPolygonResult {
        point_in_polygon_from_native(v)
    }
}

} // verus!

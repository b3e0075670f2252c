use clipper2_sys::{
    ClipType, ClipperClipType, ClipperEndType, ClipperFillRule, ClipperJoinType,
    ClipperPointInPolygonResult, EndType, FillRule, JoinType, PointInPolygonResult,
};

#[test]
fn fill_rule_into_clipper_matches_even_odd() {
    let v: ClipperFillRule = FillRule::EvenOdd.into();
    assert_eq!(v, ClipperFillRule::EvenOdd);
}

#[test]
fn clip_type_into_clipper_matches_union() {
    let v: ClipperClipType = ClipType::Union.into();
    assert_eq!(v, ClipperClipType::Union);
}

#[test]
fn point_in_polygon_result_from_clipper() {
    let r: PointInPolygonResult = ClipperPointInPolygonResult::IsInside.into();
    assert!(matches!(r, PointInPolygonResult::Inside));
}

#[test]
fn every_clip_type_maps_to_its_native_value() {
    let pairs = [
        (ClipType::NoClip, ClipperClipType::NoClip),
        (ClipType::Intersection, ClipperClipType::Intersection),
        (ClipType::Union, ClipperClipType::Union),
        (ClipType::Difference, ClipperClipType::Difference),
        (ClipType::Xor, ClipperClipType::Xor),
    ];
    for (ours, native) in pairs {
        let v: ClipperClipType = ours.into();
        assert_eq!(v, native);
    }
}

#[test]
fn every_fill_rule_maps_to_its_native_value() {
    let pairs = [
        (FillRule::EvenOdd, ClipperFillRule::EvenOdd),
        (FillRule::NonZero, ClipperFillRule::NonZero),
        (FillRule::Positive, ClipperFillRule::Positive),
        (FillRule::Negative, ClipperFillRule::Negative),
    ];
    for (ours, native) in pairs {
        let v: ClipperFillRule = ours.into();
        assert_eq!(v, native);
    }
}

#[test]
fn join_and_end_types_map_to_native_values() {
    let j: ClipperJoinType = JoinType::SquareJoin.into();
    assert_eq!(j, ClipperJoinType::Square);
    let j: ClipperJoinType = JoinType::RoundJoin.into();
    assert_eq!(j, ClipperJoinType::Round);
    let j: ClipperJoinType = JoinType::MiterJoin.into();
    assert_eq!(j, ClipperJoinType::Miter);
    let e: ClipperEndType = EndType::PolygonEnd.into();
    assert_eq!(e, ClipperEndType::Polygon);
    let e: ClipperEndType = EndType::JoinedEnd.into();
    assert_eq!(e, ClipperEndType::Joined);
    let e: ClipperEndType = EndType::SquareEnd.into();
    assert_eq!(e, ClipperEndType::Square);
    let e: ClipperEndType = EndType::RoundEnd.into();
    assert_eq!(e, ClipperEndType::Round);
}

#[test]
fn point_in_polygon_results_from_native_values() {
    let r: PointInPolygonResult = ClipperPointInPolygonResult::IsOn.into();
    assert_eq!(r, PointInPolygonResult::On);
    let r: PointInPolygonResult = ClipperPointInPolygonResult::IsOutside.into();
    assert_eq!(r, PointInPolygonResult::Outside);
}

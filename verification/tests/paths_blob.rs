use clipper2_sys::paths_blob::{
    path64_from_p64_slice, path64_from_single_paths_blob, path64_to_blob, paths64_from_blob,
    paths64_to_blob, pathd_from_single_paths_blob, pathd_to_blob, pathsd_from_blob,
    pathsd_to_blob,
};
use clipper2_sys::{
    Path64, PathD, Paths64, PathsBlob64, PathsBlobD, PathsBlobDIter, PathsD, Point64, PointD,
};
use clipper2_sys::PathsBlob64Iter;

fn pd(x: f64, y: f64) -> PointD {
    PointD::from_bits(x.to_bits(), y.to_bits())
}

#[test]
fn path64_single_blob_roundtrip() {
    let p = Path64::new(vec![
        Point64::new(0, 0),
        Point64::new(10, 0),
        Point64::new(10, 10),
    ]);
    let blob = path64_to_blob(&p);
    let q = path64_from_single_paths_blob(blob);
    assert_eq!(q.len(), p.len());
    assert_eq!(q.get_point(0), p.get_point(0));
    assert_eq!(q.get_point(2), p.get_point(2));
}

#[test]
fn paths64_multi_blob_roundtrip() {
    let a = Path64::new(vec![Point64::new(0, 0), Point64::new(1, 0)]);
    let b = Path64::new(vec![
        Point64::new(5, 5),
        Point64::new(6, 5),
        Point64::new(6, 6),
    ]);
    let paths = Paths64::new(vec![a, b]);
    let blob = paths64_to_blob(&paths);
    let out = paths64_from_blob(blob);
    assert_eq!(out.len(), 2);
    assert_eq!(out.path(0).len(), 2);
    assert_eq!(out.path(1).len(), 3);
}

#[test]
fn paths64_from_blob_short_starts_is_empty() {
    let b = PathsBlob64 {
        points: vec![],
        path_starts: vec![0],
    };
    assert!(paths64_from_blob(b).is_empty());
    let b2 = PathsBlob64 {
        points: vec![],
        path_starts: vec![],
    };
    assert!(paths64_from_blob(b2).is_empty());
}

#[test]
fn path64_from_single_paths_blob_short_starts_is_default() {
    let b = PathsBlob64 {
        points: vec![],
        path_starts: vec![0],
    };
    assert!(path64_from_single_paths_blob(b).is_empty());
}

#[test]
fn paths_blob64_iter_exact_len_and_fused() {
    let paths = Paths64::new(vec![
        Path64::new(vec![Point64::new(0, 0), Point64::new(1, 0)]),
        Path64::new(vec![Point64::new(2, 2)]),
    ]);
    let blob = paths64_to_blob(&paths);
    let mut it = PathsBlob64Iter::new(&blob);
    assert_eq!(it.len(), 2);
    assert_eq!(it.next().map(|p| p.len()), Some(2));
    assert_eq!(it.len(), 1);
    assert_eq!(it.next().map(|p| p.len()), Some(1));
    assert!(it.next().is_none());
    assert!(it.next().is_none());
}

#[test]
fn pathd_single_and_paths_roundtrip() {
    let p = PathD::new(vec![pd(0.0, 0.0), pd(3.0, 0.0), pd(3.0, 4.0)]);
    let blob = pathd_to_blob(&p);
    let q = pathd_from_single_paths_blob(blob);
    assert_eq!(q.len(), 3);

    let paths = PathsD::new(vec![p]);
    let blob2 = pathsd_to_blob(&paths);
    let out = pathsd_from_blob(blob2);
    assert_eq!(out.len(), 1);
    assert_eq!(out.path(0).len(), 3);
}

#[test]
fn paths64_to_blob_layout_is_concatenation_with_offsets() {
    let paths = Paths64::new(vec![
        Path64::new(vec![Point64::new(1, 2), Point64::new(3, 4)]),
        Path64::new(vec![]),
        Path64::new(vec![Point64::new(5, 6)]),
    ]);
    let blob = paths64_to_blob(&paths);
    assert_eq!(blob.path_starts, vec![0, 2, 2, 3]);
    assert_eq!(
        blob.points,
        vec![Point64::new(1, 2), Point64::new(3, 4), Point64::new(5, 6)]
    );
    let out = paths64_from_blob(blob);
    assert_eq!(out.len(), 3);
    assert!(out.path(1).is_empty());
    assert_eq!(out.path(2).get_point(0), Point64::new(5, 6));
}

#[test]
fn empty_paths_encode_to_single_offset() {
    let blob = paths64_to_blob(&Paths64::default());
    assert!(blob.points.is_empty());
    assert_eq!(blob.path_starts, vec![0]);
    assert!(paths64_from_blob(blob).is_empty());
}

#[test]
fn path64_to_blob_has_offsets_zero_and_len() {
    let p = Path64::new(vec![Point64::new(7, 8), Point64::new(9, 10)]);
    let blob = path64_to_blob(&p);
    assert_eq!(blob.path_starts, vec![0, 2]);
    assert_eq!(blob.points, vec![Point64::new(7, 8), Point64::new(9, 10)]);
}

#[test]
fn single_paths_blob_takes_first_segment_only() {
    let b = PathsBlob64 {
        points: vec![Point64::new(1, 1), Point64::new(2, 2), Point64::new(3, 3)],
        path_starts: vec![1, 2, 3],
    };
    let p = path64_from_single_paths_blob(b);
    assert_eq!(p.len(), 1);
    assert_eq!(p.get_point(0), Point64::new(2, 2));
}

#[test]
fn blob_segments_need_not_start_at_zero() {
    let b = PathsBlob64 {
        points: vec![Point64::new(1, 1), Point64::new(2, 2), Point64::new(3, 3)],
        path_starts: vec![1, 3],
    };
    let out = paths64_from_blob(b);
    assert_eq!(out.len(), 1);
    assert_eq!(out.path(0).get_point(0), Point64::new(2, 2));
    assert_eq!(out.path(0).get_point(1), Point64::new(3, 3));
}

#[test]
fn well_formed_check_on_buffers() {
    let good = PathsBlob64 {
        points: vec![Point64::new(0, 0), Point64::new(1, 1)],
        path_starts: vec![0, 1, 2],
    };
    assert!(good.is_well_formed());
    let decreasing = PathsBlob64 {
        points: vec![Point64::new(0, 0), Point64::new(1, 1)],
        path_starts: vec![0, 2, 1],
    };
    assert!(!decreasing.is_well_formed());
    let beyond = PathsBlob64 {
        points: vec![Point64::new(0, 0)],
        path_starts: vec![0, 2],
    };
    assert!(!beyond.is_well_formed());
    let lone = PathsBlob64 {
        points: vec![],
        path_starts: vec![5],
    };
    assert!(lone.is_well_formed());
}

#[test]
fn path64_from_p64_slice_copies_points() {
    let pts = [Point64::new(4, 5), Point64::new(6, 7)];
    let p = path64_from_p64_slice(&pts);
    assert_eq!(p.len(), 2);
    assert_eq!(p.get_point(1), Point64::new(6, 7));
}

#[test]
fn blob_iter_yields_each_path_in_order() {
    let b = PathsBlob64 {
        points: vec![Point64::new(1, 0), Point64::new(2, 0), Point64::new(3, 0)],
        path_starts: vec![0, 1, 3],
    };
    let mut it = PathsBlob64Iter::new(&b);
    let first = it.next().unwrap();
    assert_eq!(first.get_point(0), Point64::new(1, 0));
    let second = it.next().unwrap();
    assert_eq!(second.len(), 2);
    assert_eq!(second.get_point(1), Point64::new(3, 0));
    assert_eq!(it.len(), 0);
    assert!(it.next().is_none());
}

#[test]
fn canonical_blob_reencodes_to_itself() {
    let b = PathsBlob64 {
        points: vec![Point64::new(1, 1), Point64::new(2, 2), Point64::new(3, 3)],
        path_starts: vec![0, 0, 2, 3],
    };
    let again = paths64_to_blob(&paths64_from_blob(b.clone()));
    assert_eq!(again.points, b.points);
    assert_eq!(again.path_starts, b.path_starts);
}

#[test]
fn blob_d_iter_yields_paths_and_stops() {
    let b = PathsBlobD {
        points: vec![pd(0.5, 0.25), pd(1.0, 2.0), pd(-3.0, 4.5)],
        path_starts: vec![0, 2, 3],
    };
    assert!(b.is_well_formed());
    let mut it = PathsBlobDIter::new(&b);
    assert_eq!(it.len(), 2);
    assert_eq!(it.size_hint(), (2, Some(2)));
    let p = it.next().unwrap();
    assert_eq!(p.len(), 2);
    assert_eq!(f64::from_bits(p.get_point(1).x_bits), 1.0);
    let q = it.next().unwrap();
    assert_eq!(f64::from_bits(q.get_point(0).y_bits), 4.5);
    assert!(it.next().is_none());
    assert_eq!(it.len(), 0);
}

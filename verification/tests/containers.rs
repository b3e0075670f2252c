use clipper2_sys::{
    LazyPaths64, Path64, PathD, Paths64, PathsD, Point64, PointD, PolyTree64, PolyTreeD,
};
use clipper2_sys::paths_blob::paths64_to_blob;

fn pd(x: f64, y: f64) -> PointD {
    PointD::from_bits(x.to_bits(), y.to_bits())
}

#[test]
fn iter_and_for_in_by_ref() {
    let p = Path64::new(vec![Point64::new(1, 2), Point64::new(3, 4)]);
    let s: i64 = p.iter().map(|q| q.x + q.y).sum();
    assert_eq!(s, 10);
    let t: i64 = (&p).into_iter().map(|q| q.x).sum();
    assert_eq!(t, 4);
}

#[test]
fn new_add_path_len() {
    let mut ps = Paths64::default();
    assert!(ps.is_empty());
    ps.add_path(Path64::new(vec![Point64::new(0, 0), Point64::new(1, 0)]));
    assert_eq!(ps.len(), 1);
    let t = ps.translate(10, 0);
    let q = t.path(0).get_point(0);
    assert_eq!(q.x, 10);
    assert_eq!(q.y, 0);
}

#[test]
fn iter_sum_x() {
    let p = PathD::new(vec![pd(1.0, 0.0), pd(0.5, 1.0)]);
    let s: f64 = p.iter().map(|q| f64::from_bits(q.x_bits)).sum();
    assert!((s - 1.5).abs() < 1e-9);
    let n = (&p).into_iter().count();
    assert_eq!(n, 2);
}

#[test]
fn test_path_d_work() {
    let point = pd(0.0, 0.0);
    let mut path = PathD::new(vec![]);
    path.add_point(point);
    assert_eq!(path.len(), 1);
    assert_eq!(f64::from_bits(path.get_point(0).x_bits), f64::from_bits(point.x_bits));
    assert_eq!(f64::from_bits(path.get_point(0).y_bits), f64::from_bits(point.y_bits));
}

#[test]
fn test_paths_d_work() {
    let point = pd(0.0, 0.0);

    let mut path = PathD::new(vec![]);
    path.add_point(point);

    let mut paths = PathsD::new(vec![]);
    paths.add_path(path);
    assert_eq!(paths.len(), 1);
}

#[test]
fn path64_translate_moves_every_point() {
    let p = Path64::new(vec![
        Point64::new(0, 0),
        Point64::new(10, 0),
        Point64::new(10, 10),
    ]);
    assert_eq!(p.len(), 3);
    let t = p.translate(5, -1);
    assert_eq!(t.len(), 3);
    assert_eq!(t.get_point(0), Point64::new(5, -1));
    assert_eq!(t.get_point(2), Point64::new(15, 9));
}

#[test]
fn translate_by_zero_keeps_points() {
    let p = Path64::new(vec![Point64::new(-3, 4), Point64::new(8, -9)]);
    let t = p.translate(0, 0);
    assert_eq!(t.get_point(0), Point64::new(-3, 4));
    assert_eq!(t.get_point(1), Point64::new(8, -9));
}

#[test]
fn paths64_translate_each_path() {
    let ps = Paths64::new(vec![
        Path64::new(vec![Point64::new(1, 1)]),
        Path64::new(vec![Point64::new(2, 2), Point64::new(3, 3)]),
    ]);
    let t = ps.translate(-1, 2);
    assert_eq!(t.len(), 2);
    assert_eq!(t.path(0).get_point(0), Point64::new(0, 3));
    assert_eq!(t.path(1).get_point(1), Point64::new(2, 5));
}

#[test]
fn path64_accessors() {
    let mut p = Path64::default();
    assert!(p.is_empty());
    p.add_point(Point64::new(1, 2));
    p.add_point(Point64::new(3, 4));
    assert_eq!(p.len(), 2);
    assert_eq!(p.as_slice(), &[Point64::new(1, 2), Point64::new(3, 4)]);
    let q = Path64::from_vec(vec![Point64::new(9, 9)]);
    assert_eq!(q.get_point(0).x, 9);
    let owned: Vec<Point64> = q.clone().into_iter().collect();
    assert_eq!(owned, vec![Point64::new(9, 9)]);
}

#[test]
fn paths64_add_paths_get_path_get_paths() {
    let mut ps = Paths64::new(vec![Path64::new(vec![Point64::new(0, 0)])]);
    ps.add_paths(vec![
        Path64::new(vec![Point64::new(1, 1)]),
        Path64::new(vec![Point64::new(2, 2), Point64::new(3, 3)]),
    ]);
    assert_eq!(ps.len(), 3);
    let p2 = ps.get_path(2);
    assert_eq!(p2.len(), 2);
    assert_eq!(p2.get_point(1), Point64::new(3, 3));
    let all = ps.get_paths();
    assert_eq!(all.len(), 3);
    assert_eq!(all[1].get_point(0), Point64::new(1, 1));
    let v = ps.to_vec();
    assert_eq!(v.len(), 3);
    assert_eq!(ps.as_slice().len(), 3);
    let c = ps.clone();
    assert_eq!(c.path(0).get_point(0), Point64::new(0, 0));
}

#[test]
fn pathsd_add_paths_and_get_path() {
    let mut ps = PathsD::default();
    assert!(ps.is_empty());
    ps.add_paths(vec![PathD::new(vec![pd(1.5, 2.5)]), PathD::new(vec![])]);
    assert_eq!(ps.len(), 2);
    let p = ps.get_path(0);
    assert_eq!(f64::from_bits(p.get_point(0).y_bits), 2.5);
    assert!(ps.get_paths()[1].is_empty());
}

#[test]
fn lazy_paths_views_agree() {
    let ps = Paths64::new(vec![
        Path64::new(vec![Point64::new(1, 1), Point64::new(2, 2)]),
        Path64::new(vec![Point64::new(3, 3)]),
    ]);
    let lazy = LazyPaths64::from_blob(paths64_to_blob(&ps));
    assert!(!lazy.is_empty());
    let a = lazy.to_paths();
    assert_eq!(a.len(), 2);
    let mut it = lazy.iter();
    assert_eq!(it.len(), 2);
    assert_eq!(it.next().unwrap().len(), 2);
    let first = lazy.clone().into_first_path();
    assert_eq!(first.get_point(1), Point64::new(2, 2));
    let b = lazy.into_paths();
    assert_eq!(b.len(), 2);
    assert_eq!(b.path(1).get_point(0), Point64::new(3, 3));
}

#[test]
fn lazy_paths_default_is_empty() {
    let lazy = LazyPaths64::default();
    assert!(lazy.is_empty());
    assert!(lazy.to_paths().is_empty());
    assert!(lazy.into_first_path().is_empty());
}

#[test]
fn poly_tree_hole_paths_are_hole_children_in_order() {
    let outer = Path64::new(vec![Point64::new(0, 0), Point64::new(100, 0), Point64::new(100, 100)]);
    let hole_a = PolyTree64::new(Path64::new(vec![Point64::new(10, 10)]), true, vec![]);
    let island = PolyTree64::new(Path64::new(vec![Point64::new(20, 20)]), false, vec![]);
    let hole_b = PolyTree64::new(Path64::new(vec![Point64::new(30, 30), Point64::new(31, 31)]), true, vec![]);
    let mut root = PolyTree64::new(outer, false, vec![hole_a, island, hole_b]);
    assert!(!root.is_hole());
    let holes = root.get_hole_paths();
    assert_eq!(holes.len(), 2);
    assert_eq!(holes.path(0).get_point(0), Point64::new(10, 10));
    assert_eq!(holes.path(1).len(), 2);
    assert_eq!(root.get_polygon().len(), 3);
    assert_eq!(root.get_childs().len(), 3);
    assert!(root.get_childs()[0].is_hole());
    root.get_childs().pop();
    assert_eq!(root.get_hole_paths().len(), 1);
}

#[test]
fn poly_tree_d_hole_paths_and_scale_bits() {
    let hole = PolyTreeD::new(PathD::new(vec![pd(1.0, 1.0)]), true, 2.0f64.to_bits(), vec![]);
    let solid = PolyTreeD::new(PathD::new(vec![pd(2.0, 2.0)]), false, 2.0f64.to_bits(), vec![]);
    let root = PolyTreeD::new(PathD::new(vec![pd(0.0, 0.0), pd(9.0, 0.0)]), false, 2.0f64.to_bits(), vec![solid, hole]);
    assert_eq!(f64::from_bits(root.scale_bits()), 2.0);
    let holes = root.get_hole_paths();
    assert_eq!(holes.len(), 1);
    assert_eq!(f64::from_bits(holes.path(0).get_point(0).x_bits), 1.0);
    assert_eq!(root.get_polygon().len(), 2);
}

#[test]
fn as_mut_slice_writes_through() {
    let mut p = Path64::new(vec![Point64::new(1, 1), Point64::new(2, 2)]);
    p.as_mut_slice()[1] = Point64::new(7, 8);
    assert_eq!(p.get_point(1), Point64::new(7, 8));
    assert_eq!(p.len(), 2);
}

use clipper2_sys::paths_blob::paths64_to_blob;
use clipper2_sys::paths_blob::pathsd_to_blob;
use clipper2_sys::{
    ClipSolution64, ClipSolutionD, ClipTreeSolution64, ClipTreeSolutionD, Exec64, ExecD, Path64,
    PathD, Paths64, PathsBlob64, PathsD, Point64, PointD, TreeExec64, TreeExecD,
};

fn square(x0: i64, y0: i64, s: i64) -> Path64 {
    Path64::new(vec![
        Point64::new(x0, y0),
        Point64::new(x0 + s, y0),
        Point64::new(x0 + s, y0 + s),
        Point64::new(x0, y0 + s),
    ])
}

fn two_squares_and_a_line() -> Exec64 {
    Exec64 {
        closed: paths64_to_blob(&Paths64::new(vec![square(0, 0, 100), square(50, 50, 100)])),
        open: paths64_to_blob(&Paths64::new(vec![Path64::new(vec![
            Point64::new(-10, 50),
            Point64::new(110, 50),
        ])])),
    }
}

#[test]
fn solution_iter_collect_matches_into_lazy() {
    let sol = ClipSolution64::from_exec(two_squares_and_a_line());
    let mut a: Vec<Path64> = Vec::new();
    let mut it = sol.iter_closed();
    while let Some(p) = it.next() {
        a.push(p);
    }
    let mut it = sol.iter_open();
    while let Some(p) = it.next() {
        a.push(p);
    }
    let (closed, open) = sol.into_lazy();
    let mut b = closed.into_paths();
    b.add_paths(open.into_paths().to_vec());
    assert_eq!(a.len(), b.len());
    assert_eq!(a.len(), 3);
}

#[test]
fn solution_to_closed_and_to_open() {
    let sol = ClipSolution64::from_exec(two_squares_and_a_line());
    assert!(!sol.closed_is_empty());
    assert!(!sol.open_is_empty());
    let closed = sol.to_closed();
    assert_eq!(closed.len(), 2);
    assert_eq!(closed.path(1).get_point(0), Point64::new(50, 50));
    let open = sol.to_open();
    assert_eq!(open.len(), 1);
    assert_eq!(open.path(0).get_point(1), Point64::new(110, 50));
    let copy = sol.clone();
    assert_eq!(copy.to_closed().len(), 2);
}

#[test]
fn empty_solution_reports_empty() {
    let sol = ClipSolution64::from_exec(Exec64 {
        closed: PathsBlob64 { points: vec![], path_starts: vec![0] },
        open: PathsBlob64::default(),
    });
    assert!(sol.closed_is_empty());
    assert!(sol.open_is_empty());
    assert!(sol.to_closed().is_empty());
    assert_eq!(sol.iter_closed().len(), 0);
}

#[test]
fn tree_solution_root_zero_means_no_tree() {
    let sol = ClipTreeSolution64::from_tree_exec(TreeExec64 { root: 0, open: PathsBlob64::default() });
    assert!(!sol.has_poly_tree());
    assert!(sol.open_is_empty());
    assert_eq!(sol.poly_root(), None);
    let (open, mut iter) = sol.into_open_and_poly_preorder();
    assert!(open.is_empty());
    assert_eq!(iter.next_entry(), None);
    assert_eq!(iter.take_root_to_free(), None);
}

#[test]
fn tree_solution_with_root_and_open_paths() {
    let open_blob = paths64_to_blob(&Paths64::new(vec![Path64::new(vec![
        Point64::new(0, 0),
        Point64::new(5, 5),
    ])]));
    let sol = ClipTreeSolution64::from_tree_exec(TreeExec64 { root: 4242, open: open_blob });
    assert!(sol.has_poly_tree());
    assert_eq!(sol.poly_root(), Some(4242));
    assert!(!sol.open_is_empty());
    assert_eq!(sol.to_open().len(), 1);
    assert_eq!(sol.iter_open().len(), 1);
    let (open, mut iter) = sol.into_open_and_poly_preorder();
    assert_eq!(open.into_paths().path(0).get_point(1), Point64::new(5, 5));
    assert_eq!(iter.next_entry(), Some((4242, 0)));
    assert_eq!(iter.take_root_to_free(), Some(4242));
    assert_eq!(iter.take_root_to_free(), None);
}

#[test]
fn tree_solution_into_open_lazy_keeps_open_paths() {
    let open_blob = paths64_to_blob(&Paths64::new(vec![square(1, 1, 1)]));
    let sol = ClipTreeSolution64::from_tree_exec(TreeExec64 { root: 7, open: open_blob });
    let lazy = sol.into_open_lazy();
    assert_eq!(lazy.to_paths().len(), 1);
}

fn pd(x: f64, y: f64) -> PointD {
    PointD::from_bits(x.to_bits(), y.to_bits())
}

#[test]
fn double_solution_views() {
    let closed = pathsd_to_blob(&PathsD::new(vec![PathD::new(vec![
        pd(0.0, 0.0),
        pd(1.5, 0.0),
        pd(1.5, 1.5),
    ])]));
    let sol = ClipSolutionD::from_exec(ExecD { closed, open: Default::default() });
    assert!(!sol.closed_is_empty());
    assert!(sol.open_is_empty());
    let c = sol.to_closed();
    assert_eq!(c.len(), 1);
    assert_eq!(f64::from_bits(c.path(0).get_point(1).x_bits), 1.5);
    assert!(sol.to_open().is_empty());
    let (lc, lo) = sol.into_lazy();
    assert_eq!(lc.into_first_path().len(), 3);
    assert!(lo.is_empty());
}

#[test]
fn double_tree_solution_views() {
    let sol = ClipTreeSolutionD::from_tree_exec(TreeExecD { root: 9, open: Default::default() });
    assert!(sol.has_poly_tree());
    assert!(sol.open_is_empty());
    assert!(sol.to_open().is_empty());
    let (_, mut iter) = sol.into_open_and_poly_preorder();
    assert_eq!(iter.next_entry(), Some((9, 0)));
}

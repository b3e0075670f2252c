use clipper2_sys::{PolyCxxPreorderIter64, PolyCxxPreorderIterD};

/// Children of each node of a small tree: 1 -> [2, 5], 2 -> [3, 4], 5 -> [6].
fn children(n: usize) -> Vec<usize> {
    match n {
        1 => vec![2, 5],
        2 => vec![3, 4],
        5 => vec![6],
        _ => vec![],
    }
}

#[test]
fn preorder_visits_root_first_then_children_in_order() {
    let mut it = PolyCxxPreorderIter64::new(1);
    let mut order = Vec::new();
    while let Some((node, depth)) = it.next_entry() {
        order.push((node, depth));
        it.push_children(&children(node), depth);
    }
    assert_eq!(order, vec![(1, 0), (2, 1), (3, 2), (4, 2), (5, 1), (6, 2)]);
    assert_eq!(it.take_root_to_free(), Some(1));
}

#[test]
fn preorder_root_comes_first_at_depth_zero() {
    let mut it = PolyCxxPreorderIter64::new(77);
    let root = it.next_entry().expect("non-empty poly tree");
    assert_eq!(root.1, 0);
    assert_eq!(root.0, 77);
}

#[test]
fn preorder_from_zero_root_is_empty() {
    let mut it = PolyCxxPreorderIter64::new(0);
    assert_eq!(it.next_entry(), None);
    assert_eq!(it.take_root_to_free(), None);
}

#[test]
fn preorder_d_visits_in_preorder() {
    let mut it = PolyCxxPreorderIterD::new(5);
    let mut order = Vec::new();
    while let Some((node, depth)) = it.next_entry() {
        order.push((node, depth));
        it.push_children(&children(node), depth);
    }
    assert_eq!(order, vec![(5, 0), (6, 1)]);
    assert_eq!(it.take_root_to_free(), Some(5));
    assert_eq!(it.take_root_to_free(), None);
}

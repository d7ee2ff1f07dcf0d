use bsp_renderer::bsp::{binary_space_partionning, BSPNode};

/// Faces are segments `(lo, hi)` of a line; a face's plane is the point `lo`.
type Seg = (i32, i32);

fn segment_split(s: &Seg, plane: &Seg) -> (Option<Seg>, Option<Seg>) {
    let p = plane.0;
    if s.0 >= p {
        (Some(*s), None)
    } else if s.1 <= p {
        (None, Some(*s))
    } else {
        (Some((p, s.1)), Some((s.0, p)))
    }
}

fn refuses(_s: &Seg, _plane: &Seg) -> (Option<Seg>, Option<Seg>) {
    (None, None)
}

/// A viewer at `x`: in front of every plane left of it.
fn at(x: i32) -> impl Fn(&Seg) -> bool {
    move |plane: &Seg| x > plane.0
}

fn size(n: &Option<Box<BSPNode<Seg>>>) -> usize {
    n.as_ref().map_or(0, |b| b.len())
}

fn check_counts(n: &BSPNode<Seg>) {
    assert_eq!(n.len(), size(n.in_front()) + size(n.behind()) + 1);
    if let Some(c) = n.in_front() {
        check_counts(c);
    }
    if let Some(c) = n.behind() {
        check_counts(c);
    }
}

fn collect_planes(n: &BSPNode<Seg>, out: &mut Vec<Seg>) {
    out.push(n.get_plane());
    if let Some(c) = n.in_front() {
        collect_planes(c, out);
    }
    if let Some(c) = n.behind() {
        collect_planes(c, out);
    }
}

#[test]
fn straddling_face_gives_three_nodes() {
    let bsp = binary_space_partionning(&vec![(0, 10), (-5, 5)], &segment_split).unwrap();
    assert_eq!(bsp.len(), 3);
    assert_eq!(size(bsp.in_front()), 1);
    assert_eq!(size(bsp.behind()), 1);
    assert_eq!(bsp.in_front().as_ref().unwrap().get_plane(), (0, 5));
    assert_eq!(bsp.behind().as_ref().unwrap().get_plane(), (-5, 0));
}

#[test]
fn four_faces_give_five_nodes() {
    let faces = vec![(0, 10), (-5, 5), (2, 3), (4, 6)];
    let bsp = binary_space_partionning(&faces, &segment_split).unwrap();
    assert_eq!(bsp.get_plane(), (0, 10));
    assert_eq!(bsp.len(), 5);
    assert_eq!(size(bsp.in_front()), 3);
    assert_eq!(size(bsp.behind()), 1);
}

#[test]
fn node_count_is_children_plus_one() {
    let faces = vec![(0, 10), (-5, 5), (2, 3), (4, 6), (-9, 1), (-3, -2)];
    let bsp = binary_space_partionning(&faces, &segment_split).unwrap();
    check_counts(&bsp);
    assert!(bsp.len() >= faces.len());
}

#[test]
fn single_face_is_a_leaf() {
    let bsp = binary_space_partionning(&vec![(1, 2)], &refuses).unwrap();
    assert_eq!(bsp.len(), 1);
    assert!(bsp.in_front().is_none() && bsp.behind().is_none());
    assert_eq!(BSPNode::leaf((1, 2)).len(), 1);
}

#[test]
fn failed_cut_fails_the_build() {
    assert!(binary_space_partionning(&vec![(1, 2), (3, 4)], &refuses).is_none());
}

#[test]
fn draw_order_follows_the_viewer() {
    let faces = vec![(0, 10), (-5, 5), (2, 3), (4, 6)];
    let bsp = binary_space_partionning(&faces, &segment_split).unwrap();
    assert_eq!(bsp.draw_order(&at(100)), vec![(-5, 0), (0, 10), (0, 5), (2, 3), (4, 6)]);
    assert_eq!(bsp.draw_order(&at(-100)), vec![(4, 6), (2, 3), (0, 5), (0, 10), (-5, 0)]);
}

#[test]
fn draw_order_lists_every_node_once() {
    let faces = vec![(0, 10), (-5, 5), (2, 3), (4, 6), (-9, 1), (-3, -2)];
    let bsp = binary_space_partionning(&faces, &segment_split).unwrap();
    let mut order = bsp.draw_order(&at(3));
    assert_eq!(order.len(), bsp.len());
    let mut nodes = Vec::new();
    collect_planes(&bsp, &mut nodes);
    order.sort();
    nodes.sort();
    assert_eq!(order, nodes);
}

#[test]
fn two_faces_both_drawn_from_either_side() {
    // Two faces that do not cut each other: each is drawn exactly once, the farther first.
    let faces = vec![(0, 1), (2, 3)];
    let bsp = binary_space_partionning(&faces, &segment_split).unwrap();
    assert_eq!(bsp.draw_order(&at(10)), vec![(0, 1), (2, 3)]);
    assert_eq!(bsp.draw_order(&at(-10)), vec![(2, 3), (0, 1)]);
}

#[test]
fn traversal_appends_after_existing_items() {
    let bsp = binary_space_partionning(&vec![(0, 10), (-5, 5)], &segment_split).unwrap();
    let mut out = vec![(7, 7)];
    bsp.painter_algorithm_traversal(&at(100), &mut out);
    assert_eq!(out, vec![(7, 7), (-5, 0), (0, 10), (0, 5)]);
}

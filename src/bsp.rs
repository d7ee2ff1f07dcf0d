use vstd::multiset::Multiset;
use vstd::prelude::*;

verus! {

/// A node of a binary space partitioning tree: a splitting face, the subtree of the
/// faces in front of its plane and the subtree of the faces behind it.
pub struct BSPNode<F> {
    pub plane: F,
    pub in_front: Option<Box<BSPNode<F>>>,
    pub behind: Option<Box<BSPNode<F>>>,
}

/// Number of nodes of an optional subtree.
pub open spec fn subtree_size<F>(n: Option<Box<BSPNode<F>>>) -> nat
    decreases n,
{
    match n {
        None => 0,
        Some(b) => b.size(),
    }
}

/// The faces of an optional subtree, each counted once per node that holds it.
pub open spec fn subtree_faces<F>(n: Option<Box<BSPNode<F>>>) -> Multiset<F>
    decreases n,
{
    match n {
        None => Multiset::empty(),
        Some(b) => b.faces(),
    }
}

/// The front parts among the results of cutting faces, in order.
pub open spec fn fronts_of<F>(res: Seq<(Option<F>, Option<F>)>) -> Seq<F>
    decreases res.len(),
{
    if res.len() == 0 {
        Seq::empty()
    } else {
        let rest = fronts_of(res.drop_last());
        match res.last().0 {
            Some(f) => rest.push(f),
            None => rest,
        }
    }
}

/// The back parts among the results of cutting faces, in order.
pub open spec fn behinds_of<F>(res: Seq<(Option<F>, Option<F>)>) -> Seq<F>
    decreases res.len(),
{
    if res.len() == 0 {
        Seq::empty()
    } else {
        let rest = behinds_of(res.drop_last());
        match res.last().1 {
            Some(f) => rest.push(f),
            None => rest,
        }
    }
}

/// `res` are results that `split` may give when each face of `faces` after the first
/// is cut by the plane of the first, and none of them is a failure.
pub open spec fn cuts_by_first<F, S: Fn(&F, &F) -> (Option<F>, Option<F>)>(
    split: S,
    faces: Seq<F>,
    res: Seq<(Option<F>, Option<F>)>,
) -> bool {
    &&& faces.len() > 0
    &&& res.len() + 1 == faces.len()
    &&& forall|i: int| 0 <= i < res.len() ==> split.ensures((&faces[i + 1], &faces[0]), #[trigger] res[i])
    &&& forall|i: int| 0 <= i < res.len() ==> !(#[trigger] res[i].0 is None && res[i].1 is None)
}

/// An optional subtree partitions `faces` with `split`; no subtree stands for no faces.
pub open spec fn subtree_partitions<F, S: Fn(&F, &F) -> (Option<F>, Option<F>)>(
    n: Option<Box<BSPNode<F>>>,
    faces: Seq<F>,
    split: S,
) -> bool
    decreases n,
{
    match n {
        None => faces.len() == 0,
        Some(b) => b.partitions(faces, split),
    }
}

/// `s` lists the faces of an optional subtree in the painter's order for `viewer`.
pub open spec fn subtree_draw_order<F, V: Fn(&F) -> bool>(n: Option<Box<BSPNode<F>>>, s: Seq<F>, viewer: V) -> bool
    decreases n,
{
    match n {
        None => s.len() == 0,
        Some(b) => b.is_draw_order(s, viewer),
    }
}

impl<F> BSPNode<F> {
    /// Number of nodes of the tree rooted here.
    pub open spec fn size(self) -> nat
        decreases self,
    {
        1 + subtree_size(self.in_front) + subtree_size(self.behind)
    }

    /// The splitting faces of the tree rooted here.
    pub open spec fn faces(self) -> Multiset<F>
        decreases self,
    {
        subtree_faces(self.in_front).add(subtree_faces(self.behind)).insert(self.plane)
    }

    /// This tree partitions `faces` with `split`: its plane is the first face, and its
    /// two subtrees partition the front parts and the back parts of what `split` gave
    /// for each other face, cut by that plane.
    pub open spec fn partitions<S: Fn(&F, &F) -> (Option<F>, Option<F>)>(self, faces: Seq<F>, split: S) -> bool
        decreases self,
    {
        &&& faces.len() > 0
        &&& self.plane == faces[0]
        &&& exists|res: Seq<(Option<F>, Option<F>)>|
            #![trigger cuts_by_first(split, faces, res)]
            cuts_by_first(split, faces, res) && subtree_partitions(self.in_front, fronts_of(res), split)
                && subtree_partitions(self.behind, behinds_of(res), split)
    }

    /// `s` lists the faces of this tree in the painter's order for `viewer`: at every
    /// node, when the viewer is in front of the node's plane, the whole subtree behind
    /// it, then its face, then the whole subtree in front of it; otherwise the reverse.
    pub open spec fn is_draw_order<V: Fn(&F) -> bool>(self, s: Seq<F>, viewer: V) -> bool
        decreases self,
    {
        let nf = subtree_size(self.in_front) as int;
        let nb = subtree_size(self.behind) as int;
        &&& s.len() == self.size()
        &&& {
            ||| (viewer.ensures((&self.plane,), true) && s[nb] == self.plane && subtree_draw_order(
                self.behind,
                s.subrange(0, nb),
                viewer,
            ) && subtree_draw_order(self.in_front, s.subrange(nb + 1, s.len() as int), viewer))
            ||| (viewer.ensures((&self.plane,), false) && s[nf] == self.plane && subtree_draw_order(
                self.in_front,
                s.subrange(0, nf),
                viewer,
            ) && subtree_draw_order(self.behind, s.subrange(nf + 1, s.len() as int), viewer))
        }
    }
}

impl<F: Copy> BSPNode<F> {
    /// A tree of one node.
    pub fn leaf(plane: F) -> (r: Self)
        ensures
            r.plane == plane,
            r.in_front is None,
            r.behind is None,
            r.size() == 1,
    {
        BSPNode { plane, in_front: None, behind: None }
    }

    /// The splitting face of this node.
    pub fn get_plane(&self) -> (r: F)
        ensures
            r == self.plane,
    {
        self.plane
    }

    /// The subtree of the faces in front of this node's plane.
    pub fn in_front(&self) -> (r: &Option<Box<BSPNode<F>>>)
        ensures
            *r == self.in_front,
    {
        &self.in_front
    }

    /// The subtree of the faces behind this node's plane.
    pub fn behind(&self) -> (r: &Option<Box<BSPNode<F>>>)
        ensures
            *r == self.behind,
    {
        &self.behind
    }

    /// Number of nodes of the tree rooted here.
    pub fn len(&self) -> (r: usize)
        requires
            self.size() <= usize::MAX,
        ensures
            r == self.size(),
        decreases self,
    {
        let nf: usize = match &self.in_front {
            Some(n) => n.len(),
            None => 0,
        };
        let nb: usize = match &self.behind {
            Some(n) => n.len(),
            None => 0,
        };
        1 + nf + nb
    }

    /// Appends the faces of this tree to `out` in the painter's order for `viewer`,
    /// which tells whether the point of view lies in front of a face's plane: when it
    /// does, the faces behind a node come first, then the node's face, then the faces
    /// in front of it; otherwise the reverse.
    pub fn painter_algorithm_traversal<V: Fn(&F) -> bool>(&self, viewer: &V, out: &mut Vec<F>)
        requires
            forall|f: &F| viewer.requires((f,)),
        ensures
            final(out)@.len() == old(out)@.len() + self.size(),
            final(out)@.subrange(0, old(out)@.len() as int) == old(out)@,
            self.is_draw_order(
                final(out)@.subrange(old(out)@.len() as int, final(out)@.len() as int),
                *viewer,
            ),
        decreases self,
    {
        let ghost start = out@.len() as int;
        let viewer_in_front = viewer(&self.plane);
        let (first, second) = if viewer_in_front {
            (&self.behind, &self.in_front)
        } else {
            (&self.in_front, &self.behind)
        };
        let ghost n1 = subtree_size(*first) as int;
        let ghost o1 = out@;
        match first {
            Some(n) => n.painter_algorithm_traversal(viewer, out),
            None => {
                assert(o1.subrange(start, start) =~= Seq::<F>::empty());
            },
        }
        let ghost o2 = out@;
        out.push(self.plane);
        let ghost o3 = out@;
        match second {
            Some(n) => n.painter_algorithm_traversal(viewer, out),
            None => {},
        }
        proof {
            let s = out@.subrange(start, out@.len() as int);
            assert(subtree_draw_order(*first, o2.subrange(start, start + n1), *viewer));
            assert(o3.subrange(0, o2.len() as int) == o2);
            assert(out@.subrange(0, o3.len() as int) == o3);
            assert(s.subrange(0, n1) == o2.subrange(start, start + n1));
            assert(o3[start + n1] == self.plane);
            assert(out@[start + n1] == self.plane);
            assert(s.subrange(n1 + 1, s.len() as int) == out@.subrange(o3.len() as int, out@.len() as int));
            assert(out@.subrange(0, start) == o1);
        }
    }

    /// The faces of this tree in the painter's order for `viewer`.
    pub fn draw_order<V: Fn(&F) -> bool>(&self, viewer: &V) -> (r: Vec<F>)
        requires
            forall|f: &F| viewer.requires((f,)),
        ensures
            self.is_draw_order(r@, *viewer),
    {
        let mut out: Vec<F> = Vec::new();
        self.painter_algorithm_traversal(viewer, &mut out);
        assert(out@.subrange(0, out@.len() as int) == out@);
        out
    }
}

/// Front and back parts of a prefix of the results.
proof fn lemma_parts_push<F>(res: Seq<(Option<F>, Option<F>)>, r: (Option<F>, Option<F>))
    ensures
        fronts_of(res.push(r)) == match r.0 {
            Some(f) => fronts_of(res).push(f),
            None => fronts_of(res),
        },
        behinds_of(res.push(r)) == match r.1 {
            Some(f) => behinds_of(res).push(f),
            None => behinds_of(res),
        },
{
    assert(res.push(r).drop_last() == res);
}

/// Builds a binary space partitioning of `faces`. The first face becomes the root's
/// plane; every other face is cut by that plane with `split`, which gives the part in
/// front of the plane and the part behind it, and each list of parts is partitioned
/// in turn, again from its first face. `split` reports a face that it cannot cut by
/// giving neither part; the build then fails with `None`.
pub fn binary_space_partionning<F: Copy, S: Fn(&F, &F) -> (Option<F>, Option<F>)>(
    faces: &Vec<F>,
    split: &S,
) -> (r: Option<BSPNode<F>>)
    requires
        faces@.len() > 0,
        forall|a: &F, b: &F| split.requires((a, b)),
    ensures
        r matches Some(t) ==> t.partitions(faces@, *split) && t.size() >= faces@.len(),
        r is None ==> exists|a: F, b: F| split.ensures((&a, &b), (None::<F>, None::<F>)),
        faces@.len() == 1 ==> r == Some(BSPNode::<F> { plane: faces@[0], in_front: None, behind: None }),
    decreases faces@.len(),
{
    let plane = faces[0];
    let mut in_fronts: Vec<F> = Vec::new();
    let mut behinds: Vec<F> = Vec::new();
    let ghost mut res: Seq<(Option<F>, Option<F>)> = Seq::empty();
    let mut i: usize = 1;
    while i < faces.len()
        invariant
            1 <= i <= faces@.len(),
            plane == faces@[0],
            forall|a: &F, b: &F| split.requires((a, b)),
            res.len() == i - 1,
            forall|j: int| 0 <= j < res.len() ==> split.ensures((&faces@[j + 1], &faces@[0]), #[trigger] res[j]),
            forall|j: int| 0 <= j < res.len() ==> !(#[trigger] res[j].0 is None && res[j].1 is None),
            in_fronts@ == fronts_of(res),
            behinds@ == behinds_of(res),
            in_fronts@.len() <= i - 1,
            behinds@.len() <= i - 1,
            in_fronts@.len() + behinds@.len() >= i - 1,
        decreases faces@.len() - i,
    {
        let cut = split(&faces[i], &plane);
        proof {
            lemma_parts_push(res, cut);
            res = res.push(cut);
        }
        match cut {
            (Some(f), None) => in_fronts.push(f),
            (None, Some(b)) => behinds.push(b),
            (Some(f), Some(b)) => {
                in_fronts.push(f);
                behinds.push(b);
            },
            (None, None) => {
                return None;
            },
        }
        i = i + 1;
    }
    assert(cuts_by_first(*split, faces@, res));
    let in_front = if in_fronts.len() > 0 {
        match binary_space_partionning(&in_fronts, split) {
            Some(n) => Some(Box::new(n)),
            None => {
                return None;
            },
        }
    } else {
        None
    };
    let behind = if behinds.len() > 0 {
        match binary_space_partionning(&behinds, split) {
            Some(n) => Some(Box::new(n)),
            None => {
                return None;
            },
        }
    } else {
        None
    };
    let t = BSPNode { plane, in_front, behind };
    assert(subtree_partitions(t.in_front, fronts_of(res), *split));
    assert(subtree_partitions(t.behind, behinds_of(res), *split));
    Some(t)
}

/// A tree counts its own node and the nodes of its two subtrees.
pub proof fn lemma_len_counts_children<F>(t: BSPNode<F>)
    ensures
        t.size() == subtree_size(t.in_front) + subtree_size(t.behind) + 1,
{
}

/// An optional subtree's draw order lists each of its faces exactly once.
pub proof fn lemma_subtree_draw_order_lists_faces<F, V: Fn(&F) -> bool>(
    n: Option<Box<BSPNode<F>>>,
    s: Seq<F>,
    viewer: V,
)
    requires
        subtree_draw_order(n, s, viewer),
    ensures
        s.to_multiset() == subtree_faces(n),
    decreases n,
{
    match n {
        None => {
            s.to_multiset_ensures();
            vstd::multiset::lemma_multiset_empty_len(s.to_multiset());
        },
        Some(b) => {
            lemma_draw_order_lists_faces(*b, s, viewer);
        },
    }
}

/// Whatever the viewer answers at each node, the painter's order lists every face of
/// the tree exactly once: it is a permutation of the tree's faces.
pub proof fn lemma_draw_order_lists_faces<F, V: Fn(&F) -> bool>(t: BSPNode<F>, s: Seq<F>, viewer: V)
    requires
        t.is_draw_order(s, viewer),
    ensures
        s.to_multiset() == t.faces(),
    decreases t,
{
    let nf = subtree_size(t.in_front) as int;
    let nb = subtree_size(t.behind) as int;
    let (k, first, second) = if viewer.ensures((&t.plane,), true) && s[nb] == t.plane && subtree_draw_order(
        t.behind,
        s.subrange(0, nb),
        viewer,
    ) && subtree_draw_order(t.in_front, s.subrange(nb + 1, s.len() as int), viewer) {
        (nb, t.behind, t.in_front)
    } else {
        (nf, t.in_front, t.behind)
    };
    let s1 = s.subrange(0, k);
    let s2 = s.subrange(k + 1, s.len() as int);
    lemma_subtree_draw_order_lists_faces(first, s1, viewer);
    lemma_subtree_draw_order_lists_faces(second, s2, viewer);
    assert(s == s1.push(t.plane) + s2);
    vstd::seq_lib::lemma_multiset_commutative(s1.push(t.plane), s2);
    vstd::seq_lib::to_multiset_build(s1, t.plane);
    assert(s.to_multiset() =~= t.faces());
}

} // verus!

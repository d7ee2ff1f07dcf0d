use vstd::prelude::*;

verus! {

/// How a quadrilateral is cut by a plane, from the side of each of its corners.
#[derive(Clone, Copy, Debug, PartialEq, Eq, Structural)]
pub enum SplitPlan {
    /// Every corner lies behind the plane.
    Behind,
    /// Every corner lies in front of the plane.
    InFront,
    /// The plane crosses edges 0-1 and 2-3.
    CutEdges01And23,
    /// The plane crosses edges 1-2 and 3-0.
    CutEdges12And30,
}

/// Number of corners marked in front.
pub open spec fn count_in_front(flags: Seq<bool>) -> nat
    decreases flags.len(),
{
    if flags.len() == 0 {
        0
    } else {
        count_in_front(flags.drop_last()) + if flags.last() {
            1nat
        } else {
            0nat
        }
    }
}

/// The plan for a quadrilateral whose corners are in front of the plane as `flags`
/// says, or `None` for a configuration that would leave a triangular fragment.
pub open spec fn plan_of(flags: Seq<bool>) -> Option<SplitPlan>
    recommends
        flags.len() == 4,
{
    let n = count_in_front(flags);
    if n == 0 {
        Some(SplitPlan::Behind)
    } else if n == 4 {
        Some(SplitPlan::InFront)
    } else if n == 2 && flags[0] != flags[1] && flags[0] == flags[3] {
        Some(SplitPlan::CutEdges01And23)
    } else if n == 2 && flags[0] == flags[1] {
        Some(SplitPlan::CutEdges12And30)
    } else {
        None
    }
}

/// The two fragments of a cut, in the corner order of the original quad: the one
/// that holds corner 0, then the other. `x` and `y` are the points where the plane
/// meets the first and the second crossed edge.
pub open spec fn cut_fragments<P>(c: Seq<P>, plan: SplitPlan, x: P, y: P) -> (Seq<P>, Seq<P>) {
    if plan == SplitPlan::CutEdges01And23 {
        (seq![c[0], x, y, c[3]], seq![x, c[1], c[2], y])
    } else {
        (seq![c[0], c[1], x, y], seq![y, x, c[2], c[3]])
    }
}

/// Classifies a quadrilateral against a plane from the side of each corner
/// (`true`: in front).
pub fn split_plan(in_front: [bool; 4]) -> (r: Option<SplitPlan>)
    ensures
        r == plan_of(in_front@),
{
    let mut n: usize = 0;
    let mut i: usize = 0;
    while i < 4
        invariant
            0 <= i <= 4,
            n <= i,
            n == count_in_front(in_front@.subrange(0, i as int)),
        decreases 4 - i,
    {
        assert(in_front@.subrange(0, i + 1).drop_last() == in_front@.subrange(0, i as int));
        if in_front[i] {
            n = n + 1;
        }
        i = i + 1;
    }
    assert(in_front@.subrange(0, 4) == in_front@);
    if n == 0 {
        Some(SplitPlan::Behind)
    } else if n == 4 {
        Some(SplitPlan::InFront)
    } else if n == 2 && in_front[0] != in_front[1] && in_front[0] == in_front[3] {
        Some(SplitPlan::CutEdges01And23)
    } else if n == 2 && in_front[0] == in_front[1] {
        Some(SplitPlan::CutEdges12And30)
    } else {
        None
    }
}

impl SplitPlan {
    /// The corner indices of the two edges that the plane crosses, for a cut.
    pub fn cut_edges(&self) -> (r: ((usize, usize), (usize, usize)))
        ensures
            *self == SplitPlan::CutEdges01And23 ==> r == ((0usize, 1usize), (2usize, 3usize)),
            *self == SplitPlan::CutEdges12And30 ==> r == ((1usize, 2usize), (3usize, 0usize)),
            *self == SplitPlan::Behind || *self == SplitPlan::InFront ==> r == (
                (0usize, 0usize),
                (0usize, 0usize),
            ),
    {
        match self {
            SplitPlan::CutEdges01And23 => ((0, 1), (2, 3)),
            SplitPlan::CutEdges12And30 => ((1, 2), (3, 0)),
            _ => ((0, 0), (0, 0)),
        }
    }
}

/// Distributes the corners of a quadrilateral into the fragments in front of and
/// behind a plane, following `plan`. For a cut, `x` and `y` are the points where
/// the plane meets the first and the second edge of `plan.cut_edges()`, and
/// `first_in_front` tells on which side corner 0 lies.
pub fn assemble_split<P: Copy>(
    corners: [P; 4],
    plan: SplitPlan,
    first_in_front: bool,
    x: P,
    y: P,
) -> (r: (Option<[P; 4]>, Option<[P; 4]>))
    ensures
        plan == SplitPlan::Behind ==> r.0 is None && r.1 == Some(corners),
        plan == SplitPlan::InFront ==> r.0 == Some(corners) && r.1 is None,
        plan == SplitPlan::CutEdges01And23 || plan == SplitPlan::CutEdges12And30 ==> {
            let (with_first, other) = cut_fragments(corners@, plan, x, y);
            &&& r.0 is Some && r.1 is Some
            &&& r.0.unwrap()@ == if first_in_front {
                with_first
            } else {
                other
            }
            &&& r.1.unwrap()@ == if first_in_front {
                other
            } else {
                with_first
            }
        },
{
    let c = corners;
    match plan {
        SplitPlan::Behind => (None, Some(c)),
        SplitPlan::InFront => (Some(c), None),
        SplitPlan::CutEdges01And23 | SplitPlan::CutEdges12And30 => {
            let (f1, f2) = if plan == SplitPlan::CutEdges01And23 {
                ([c[0], x, y, c[3]], [x, c[1], c[2], y])
            } else {
                ([c[0], c[1], x, y], [y, x, c[2], c[3]])
            };
            assert(f1@ == cut_fragments(c@, plan, x, y).0);
            assert(f2@ == cut_fragments(c@, plan, x, y).1);
            if first_in_front {
                (Some(f1), Some(f2))
            } else {
                (Some(f2), Some(f1))
            }
        },
    }
}

/// A quadrilateral with every corner in front of the plane is planned as wholly in
/// front, and one with every corner behind it as wholly behind; `assemble_split`
/// then hands it back whole on that side and nothing on the other.
pub proof fn lemma_uncut_face_kept_whole(flags: Seq<bool>)
    requires
        flags.len() == 4,
    ensures
        (forall|i: int| 0 <= i < 4 ==> #[trigger] flags[i]) ==> plan_of(flags) == Some(
            SplitPlan::InFront,
        ),
        (forall|i: int| 0 <= i < 4 ==> !#[trigger] flags[i]) ==> plan_of(flags) == Some(
            SplitPlan::Behind,
        ),
{
    reveal_with_fuel(count_in_front, 5);
    assert(flags.drop_last().drop_last().drop_last().drop_last().len() == 0);
    assert(flags.drop_last().last() == flags[2]);
    assert(flags.drop_last().drop_last().last() == flags[1]);
    assert(flags.drop_last().drop_last().drop_last().last() == flags[0]);
    assert(flags.last() == flags[3]);
}

} // verus!

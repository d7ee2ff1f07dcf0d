use vstd::prelude::*;

use crate::{HEIGHT, WIDTH};

verus! {

/// The background color of a pixel that no face covers.
pub const BACKGROUND_RGBA: [u8; 4] = [214, 214, 194, 150];

/// Index of the nearest hit among the rays' hits on the faces, in the faces' order:
/// `Some(d)` is a hit at distance `d`. The nearest distance wins and the first face
/// wins a tie. A distance of `u32::MAX` counts as no hit.
pub fn nearest_hit(hits: &Vec<Option<u32>>) -> (r: Option<usize>)
    ensures
        r is None <==> forall|j: int|
            0 <= j < hits@.len() ==> #[trigger] hits@[j] is None || hits@[j] == Some(u32::MAX),
        r matches Some(i) ==> {
            &&& i < hits@.len()
            &&& hits@[i as int] is Some
            &&& hits@[i as int].unwrap() < u32::MAX
            &&& forall|j: int|
                0 <= j < hits@.len() && #[trigger] hits@[j] is Some ==> hits@[j].unwrap()
                    >= hits@[i as int].unwrap()
            &&& forall|j: int|
                0 <= j < i && #[trigger] hits@[j] is Some ==> hits@[j].unwrap() > hits@[i as int].unwrap()
        },
{
    let mut min_distance: u32 = u32::MAX;
    let mut best: Option<usize> = None;
    let mut k: usize = 0;
    while k < hits.len()
        invariant
            0 <= k <= hits@.len(),
            best is None ==> min_distance == u32::MAX,
            best matches Some(i) ==> i < k && hits@[i as int] == Some(min_distance)
                && min_distance < u32::MAX,
            forall|j: int|
                0 <= j < k && #[trigger] hits@[j] is Some ==> hits@[j].unwrap() >= min_distance,
            best matches Some(i) ==> forall|j: int|
                0 <= j < i && #[trigger] hits@[j] is Some ==> hits@[j].unwrap() > min_distance,
        decreases hits@.len() - k,
    {
        match hits[k] {
            Some(d) => {
                if d < min_distance {
                    min_distance = d;
                    best = Some(k);
                }
            },
            None => {},
        }
        k = k + 1;
    }
    best
}

/// The order of `(depth key, face index)` pairs: by key, then by index.
pub open spec fn pair_le(a: (i32, usize), b: (i32, usize)) -> bool {
    a.0 < b.0 || (a.0 == b.0 && a.1 <= b.1)
}

/// Relies on std's `slice::sort`: the result is a permutation of the input, in
/// ascending order, where tuples compare by their first field, then their second.
#[verifier::external_body]
fn sort_pairs(v: &mut Vec<(i32, usize)>)
    ensures
        final(v)@.to_multiset() == old(v)@.to_multiset(),
        forall|i: int, j: int|
            0 <= i < j < final(v)@.len() ==> pair_le(#[trigger] final(v)@[i], #[trigger] final(v)@[j]),
{
    v.sort();
}

/// Draw order of faces for the painter's algorithm without a tree, from each face's
/// depth key: the farthest face first. Among faces of equal key the one listed later
/// comes first, as when a stable ascending sort is walked from its end.
pub fn depth_order(keys: &Vec<i32>) -> (r: Vec<usize>)
    ensures
        r@.len() == keys@.len(),
        r@.no_duplicates(),
        forall|k: int| 0 <= k < r@.len() ==> #[trigger] r@[k] < keys@.len(),
        forall|a: int, b: int|
            0 <= a < b < r@.len() ==> {
                let ka = keys@[#[trigger] r@[a] as int];
                let kb = keys@[#[trigger] r@[b] as int];
                ka > kb || (ka == kb && r@[a] > r@[b])
            },
{
    let n = keys.len();
    let mut pairs: Vec<(i32, usize)> = Vec::new();
    let mut i: usize = 0;
    while i < n
        invariant
            n == keys@.len(),
            0 <= i <= n,
            pairs@.len() == i,
            forall|j: int| 0 <= j < i ==> #[trigger] pairs@[j] == (keys@[j], j as usize),
        decreases n - i,
    {
        pairs.push((keys[i], i));
        i = i + 1;
    }
    proof {
        assert(pairs@.no_duplicates());
        pairs@.lemma_multiset_has_no_duplicates();
    }
    let ghost unsorted = pairs@;
    sort_pairs(&mut pairs);
    proof {
        pairs@.to_multiset_ensures();
        unsorted.to_multiset_ensures();
        assert forall|k: int| 0 <= k < pairs@.len() implies #[trigger] pairs@[k].1 < n
            && pairs@[k].0 == keys@[pairs@[k].1 as int] by {
            assert(pairs@.contains(pairs@[k]));
            assert(unsorted.to_multiset().count(pairs@[k]) > 0);
            assert(unsorted.contains(pairs@[k]));
        }
        assert forall|x: (i32, usize)| #[trigger] pairs@.to_multiset().count(x) <= 1 by {
            unsorted.lemma_multiset_has_no_duplicates();
        }
        pairs@.lemma_multiset_has_no_duplicates_conv();
    }
    let mut r: Vec<usize> = Vec::new();
    let mut k: usize = 0;
    while k < n
        invariant
            n == keys@.len(),
            pairs@.len() == n,
            pairs@.no_duplicates(),
            0 <= k <= n,
            r@.len() == k,
            forall|t: int| 0 <= t < k ==> #[trigger] r@[t] == pairs@[n - 1 - t].1,
            forall|t: int|
                0 <= t < pairs@.len() ==> #[trigger] pairs@[t].1 < n && pairs@[t].0 == keys@[pairs@[t].1 as int],
            forall|a: int, b: int|
                0 <= a < b < pairs@.len() ==> pair_le(#[trigger] pairs@[a], #[trigger] pairs@[b]),
        decreases n - k,
    {
        r.push(pairs[n - 1 - k].1);
        k = k + 1;
    }
    proof {
        assert forall|a: int, b: int| 0 <= a < b < r@.len() implies {
            let ka = keys@[#[trigger] r@[a] as int];
            let kb = keys@[#[trigger] r@[b] as int];
            ka > kb || (ka == kb && r@[a] > r@[b])
        } by {
            let pa = pairs@[n - 1 - a];
            let pb = pairs@[n - 1 - b];
            assert(pair_le(pb, pa));
            assert(pa != pb);
        }
        assert forall|a: int, b: int| 0 <= a < r@.len() && 0 <= b < r@.len() && a != b implies r@[a]
            != r@[b] by {
            let pa = pairs@[n - 1 - a];
            let pb = pairs@[n - 1 - b];
            assert(pa != pb);
        }
    }
    r
}

/// `v` moved into `[0, hi]`.
pub open spec fn clamp_to(v: int, hi: int) -> int {
    if v < 0 {
        0
    } else if v > hi {
        hi
    } else {
        v
    }
}

/// The smallest of four values.
pub open spec fn min4(a: int, b: int, c: int, d: int) -> int {
    let m1 = if a <= b {
        a
    } else {
        b
    };
    let m2 = if c <= d {
        c
    } else {
        d
    };
    if m1 <= m2 {
        m1
    } else {
        m2
    }
}

/// The largest of four values.
pub open spec fn max4(a: int, b: int, c: int, d: int) -> int {
    -min4(-a, -b, -c, -d)
}

/// The screen box to scan for a projected quad with the given corner pixels,
/// `(xmin, ymin, xmax, ymax)`: the corners' extent widened by two pixels on each side
/// and cut to the screen.
pub fn bounding_box(xs: [u32; 4], ys: [u32; 4]) -> (r: (u32, u32, u32, u32))
    ensures
        r.0 == clamp_to(min4(xs@[0] as int, xs@[1] as int, xs@[2] as int, xs@[3] as int) - 2, WIDTH as int),
        r.1 == clamp_to(min4(ys@[0] as int, ys@[1] as int, ys@[2] as int, ys@[3] as int) - 2, HEIGHT as int),
        r.2 == clamp_to(max4(xs@[0] as int, xs@[1] as int, xs@[2] as int, xs@[3] as int) + 2, WIDTH as int),
        r.3 == clamp_to(max4(ys@[0] as int, ys@[1] as int, ys@[2] as int, ys@[3] as int) + 2, HEIGHT as int),
{
    let xmin = min_u32(min_u32(xs[0], xs[1]), min_u32(xs[2], xs[3]));
    let ymin = min_u32(min_u32(ys[0], ys[1]), min_u32(ys[2], ys[3]));
    let xmax = max_u32(max_u32(xs[0], xs[1]), max_u32(xs[2], xs[3]));
    let ymax = max_u32(max_u32(ys[0], ys[1]), max_u32(ys[2], ys[3]));
    (
        clamp_u32(xmin as i64 - 2, WIDTH),
        clamp_u32(ymin as i64 - 2, HEIGHT),
        clamp_u32(xmax as i64 + 2, WIDTH),
        clamp_u32(ymax as i64 + 2, HEIGHT),
    )
}

fn min_u32(a: u32, b: u32) -> (r: u32)
    ensures
        r == if a <= b {
            a
        } else {
            b
        },
{
    if a <= b {
        a
    } else {
        b
    }
}

fn max_u32(a: u32, b: u32) -> (r: u32)
    ensures
        r == if a >= b {
            a
        } else {
            b
        },
{
    if a >= b {
        a
    } else {
        b
    }
}

fn clamp_u32(v: i64, hi: u32) -> (r: u32)
    ensures
        r == clamp_to(v as int, hi as int),
{
    if v < 0 {
        0
    } else if v > hi as i64 {
        hi
    } else {
        v as u32
    }
}

/// Index of the first byte of pixel `(x, y)` in an RGBA screen buffer.
pub fn pixel_index(x: u32, y: u32) -> (r: usize)
    requires
        x < WIDTH,
        y < HEIGHT,
    ensures
        r == 4 * (x + y * WIDTH),
{
    assert(y * WIDTH < HEIGHT * WIDTH) by (nonlinear_arith)
        requires
            y < HEIGHT,
    ;
    4 * (x as usize + y as usize * WIDTH as usize)
}

} // verus!

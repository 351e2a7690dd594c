//! The support point of a point cloud: the point that lies furthest along a
//! direction.

use crate::binary32::{
    at_most, greater, is_greater, is_nan, lemma_greater_is_strict_order, lemma_order_total,
};
use crate::vector::{dot_product, Point};
use vstd::prelude::*;

verus! {

/// How far `p` lies along `direction`: their dot product.
pub open spec fn score(p: Point, direction: Point) -> u32 {
    dot_product(p, direction)
}

/// The index that a scan of the first `n` points ends with. The scan starts at
/// the first point and moves to a later point only when that point lies
/// strictly further along `direction` than the best so far, so of points that
/// lie equally far the earliest is kept.
pub open spec fn furthest_index(points: Seq<Point>, direction: Point, n: int) -> int
    decreases n,
{
    if n <= 1 {
        0
    } else {
        let best = furthest_index(points, direction, n - 1);
        if greater(score(points[n - 1], direction), score(points[best], direction)) {
            n - 1
        } else {
            best
        }
    }
}

/// The point of `points` that lies furthest along `direction`, or the origin
/// if there is no point.
pub open spec fn furthest_point(points: Seq<Point>, direction: Point) -> Point {
    if points.len() == 0 {
        Point { x: 0, y: 0, z: 0 }
    } else {
        points[furthest_index(points, direction, points.len() as int)]
    }
}

/// Whether no point of `points` has a NaN for its score along `direction`.
pub open spec fn scores_are_numbers(points: Seq<Point>, direction: Point) -> bool {
    forall|j: int| 0 <= j < points.len() ==> !is_nan(#[trigger] score(points[j], direction))
}

/// The scan ends inside the part that it has scanned; no point of that part
/// lies strictly further along `direction` than the point it ends with; and
/// every point before that one either lies strictly less far or has a NaN for
/// its score.
pub proof fn lemma_furthest_index(points: Seq<Point>, direction: Point, n: int)
    requires
        1 <= n <= points.len(),
    ensures
        0 <= furthest_index(points, direction, n) < n,
        forall|j: int|
            0 <= j < n ==> !greater(
                #[trigger] score(points[j], direction),
                score(points[furthest_index(points, direction, n)], direction),
            ),
        forall|j: int|
            0 <= j < furthest_index(points, direction, n) ==> is_nan(
                #[trigger] score(points[j], direction),
            ) || greater(
                score(points[furthest_index(points, direction, n)], direction),
                score(points[j], direction),
            ),
    decreases n,
{
    if n > 1 {
        lemma_furthest_index(points, direction, n - 1);
        let before = furthest_index(points, direction, n - 1);
        let last = score(points[n - 1], direction);
        assert forall|j: int| 0 <= j < n implies !greater(
            #[trigger] score(points[j], direction),
            score(points[furthest_index(points, direction, n)], direction),
        ) by {
            lemma_greater_is_strict_order(
                score(points[j], direction),
                last,
                score(points[before], direction),
            );
        }
    }
}

/// A non-empty point cloud holds its furthest point.
pub proof fn lemma_furthest_point_is_member(points: Seq<Point>, direction: Point)
    requires
        points.len() > 0,
    ensures
        points.contains(furthest_point(points, direction)),
{
    lemma_furthest_index(points, direction, points.len() as int);
}

/// Maximal support: where no score is a NaN, every point of the cloud lies at
/// most as far along `direction` as the furthest point does.
pub proof fn lemma_furthest_point_is_maximal(points: Seq<Point>, direction: Point, j: int)
    requires
        0 <= j < points.len(),
        scores_are_numbers(points, direction),
    ensures
        at_most(score(points[j], direction), score(furthest_point(points, direction), direction)),
{
    lemma_furthest_index(points, direction, points.len() as int);
    let best = furthest_index(points, direction, points.len() as int);
    lemma_order_total(score(points[best], direction), score(points[j], direction));
    lemma_order_total(score(points[j], direction), score(points[best], direction));
}

/// Scans `points` for the one that lies furthest along `direction`.
pub fn find_furthest(points: &Vec<Point>, direction: Point) -> (r: Point)
    ensures
        r == furthest_point(points@, direction),
{
    let n = points.len();
    if n == 0 {
        return Point::zero();
    }
    let mut best: usize = 0;
    let mut best_score: u32 = points[0].dot(direction);
    let mut i: usize = 1;
    while i < n
        invariant
            n == points@.len(),
            1 <= i <= n,
            best < i,
            best == furthest_index(points@, direction, i as int),
            best_score == score(points@[best as int], direction),
        decreases n - i,
    {
        let candidate: u32 = points[i].dot(direction);
        if is_greater(candidate, best_score) {
            best = i;
            best_score = candidate;
        }
        i += 1;
    }
    points[best]
}

} // verus!

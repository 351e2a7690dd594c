//! The narrow phase: the world-space cache of a collision mesh, the two kinds
//! of shape that can be asked for a support point, and the GJK intersection
//! test on the simplex that it evolves.

use crate::binary32::{at_most, greater, is_at_most, is_greater, ZERO};
use crate::collision_mesh::CollisionMesh;
use crate::distinct::{first_occurrences, lemma_first_occurrences};
use crate::spatial::GlobalTransform;
use crate::support::{find_furthest, furthest_point};
use crate::vector::{
    cross_product, difference, dot_product, opposite, transformed, unit_vector, Matrix4, Point,
};
use std::collections::HashSet;
use vstd::prelude::*;

verus! {

broadcast use vstd::std_specs::hash::group_hash_axioms;

/// The most rounds that one intersection test runs before it gives up.
pub const MAX_ROUNDS: usize = 64;

/// The entities whose cache has to be rebuilt in a tick: those whose
/// transform changed, then those whose mesh changed, each once.
pub fn entities_to_rebuild(changed_transforms: &Vec<u64>, changed_meshes: &Vec<u64>) -> (r: Vec<u64>)
    ensures
        r@ == first_occurrences(changed_transforms@ + changed_meshes@),
        r@.no_duplicates(),
        forall|id: u64|
            r@.contains(id) <==> changed_transforms@.contains(id) || changed_meshes@.contains(id),
{
    let ghost all = changed_transforms@ + changed_meshes@;
    let mut seen: HashSet<u64> = HashSet::new();
    let mut out: Vec<u64> = Vec::new();
    let n = changed_transforms.len();
    let m = changed_meshes.len();
    assert(all.take(0) =~= Seq::<u64>::empty());
    let mut i: usize = 0;
    while i < n
        invariant
            n == changed_transforms@.len(),
            all == changed_transforms@ + changed_meshes@,
            i <= n,
            out@ == first_occurrences(all.take(i as int)),
            forall|id: u64| seen@.contains(id) <==> out@.contains(id),
        decreases n - i,
    {
        let id = changed_transforms[i];
        proof {
            assert(all.take(i + 1).drop_last() =~= all.take(i as int));
            assert(all.take(i + 1).last() == id);
        }
        if seen.insert(id) {
            let ghost before = out@;
            out.push(id);
            assert forall|x: u64| seen@.contains(x) <==> out@.contains(x) by {
                if before.contains(x) {
                    let k = choose|k: int| 0 <= k < before.len() && before[k] == x;
                    assert(out@[k] == x);
                }
                assert(out@[before.len() as int] == id);
            }
        }
        i += 1;
    }
    let mut j: usize = 0;
    while j < m
        invariant
            n == changed_transforms@.len(),
            m == changed_meshes@.len(),
            all == changed_transforms@ + changed_meshes@,
            j <= m,
            out@ == first_occurrences(all.take(n + j)),
            forall|id: u64| seen@.contains(id) <==> out@.contains(id),
        decreases m - j,
    {
        let id = changed_meshes[j];
        proof {
            assert(all.take(n + j + 1).drop_last() =~= all.take(n + j));
            assert(all.take(n + j + 1).last() == id);
        }
        if seen.insert(id) {
            let ghost before = out@;
            out.push(id);
            assert forall|x: u64| seen@.contains(x) <==> out@.contains(x) by {
                if before.contains(x) {
                    let k = choose|k: int| 0 <= k < before.len() && before[k] == x;
                    assert(out@[k] == x);
                }
                assert(out@[before.len() as int] == id);
            }
        }
        j += 1;
    }
    proof {
        assert(all.take(n + m) =~= all);
        lemma_first_occurrences(all);
        assert forall|id: u64| all.contains(id) <==> changed_transforms@.contains(id)
            || changed_meshes@.contains(id) by {
            if changed_transforms@.contains(id) {
                let k = choose|k: int|
                    0 <= k < changed_transforms@.len() && changed_transforms@[k] == id;
                assert(all[k] == id);
            }
            if changed_meshes@.contains(id) {
                let k = choose|k: int| 0 <= k < changed_meshes@.len() && changed_meshes@[k] == id;
                assert(all[n + k] == id);
            }
            if all.contains(id) {
                let k = choose|k: int| 0 <= k < all.len() && all[k] == id;
                if k < n {
                    assert(changed_transforms@[k] == id);
                } else {
                    assert(changed_meshes@[k - n] == id);
                }
            }
        }
    }
    out
}

/// A shape that can say which of its points lies furthest along a direction
/// in world space.
pub trait ComplexCollisionMeshAccess {
    /// The point of the shape that `find_furthest_point` returns for
    /// `direction`.
    spec fn support_point(&self, direction: Point) -> Point;

    /// The point of the shape that lies furthest along `direction`.
    fn find_furthest_point(&self, direction: Point) -> (r: Point)
        ensures
            r == self.support_point(direction),
    ;
}

/// The points of `points` under the matrix with the columns `cols`, index by
/// index.
pub open spec fn world_points(points: Seq<Point>, cols: Seq<u32>) -> Seq<Point> {
    Seq::new(points.len(), |i: int| transformed(cols, points[i]))
}

/// The points of a collision mesh in world space, computed ahead of the
/// queries.
#[derive(Debug)]
pub struct BuiltComplexCollisionMesh {
    built: Vec<Point>,
}

impl BuiltComplexCollisionMesh {
    /// The cached points, in the order of the mesh they were built from.
    pub closed spec fn view(&self) -> Seq<Point> {
        self.built@
    }

    /// A cache that has not been built yet: it holds no point.
    pub fn new() -> (r: Self)
        ensures
            r@ == Seq::<Point>::empty(),
    {
        Self { built: Vec::new() }
    }

    /// The cached points.
    pub fn points(&self) -> (r: &Vec<Point>)
        ensures
            r@ == self@,
    {
        &self.built
    }

    /// Rebuilds the cache from `mesh` and `matrix`: afterwards it holds, index
    /// by index, the image of each point of the mesh. A cache of another
    /// length than the mesh is first replaced by one of the length of the
    /// mesh, so nothing of its old contents stays.
    pub fn rebuild(&mut self, mesh: &CollisionMesh, matrix: &Matrix4)
        ensures
            final(self)@ == world_points(mesh@, matrix@),
    {
        let source = mesh.points();
        let n = source.len();
        if self.built.len() != n {
            let mut fresh: Vec<Point> = Vec::new();
            while fresh.len() < n
                invariant
                    fresh@.len() <= n,
                decreases n - fresh@.len(),
            {
                fresh.push(Point::zero());
            }
            self.built = fresh;
        }
        let mut i: usize = 0;
        while i < n
            invariant
                n == source@.len(),
                self.built@.len() == n,
                i <= n,
                forall|k: int| 0 <= k < i ==> self.built@[k] == transformed(matrix@, source@[k]),
            decreases n - i,
        {
            let image = matrix.transform_point(source[i]);
            self.built[i] = image;
            i += 1;
        }
        assert(self.built@ =~= world_points(mesh@, matrix@));
    }
}

impl ComplexCollisionMeshAccess for BuiltComplexCollisionMesh {
    /// The cached point that lies furthest along `direction`, which is used
    /// as it is given; the origin if the cache is empty.
    open spec fn support_point(&self, direction: Point) -> Point {
        furthest_point(self@, direction)
    }

    fn find_furthest_point(&self, direction: Point) -> (r: Point) {
        find_furthest(&self.built, direction)
    }
}

/// A collision mesh together with the matrix that takes it to world space,
/// for queries without a cache.
pub struct ComplexCollisionMeshTransform<'a> {
    pub mesh: &'a CollisionMesh,
    pub transform_matrix: Matrix4,
}

impl<'a> ComplexCollisionMeshTransform<'a> {
    /// The mesh under the matrix of the world transform `global`.
    #[inline]
    pub fn from_global(mesh: &'a CollisionMesh, global: &GlobalTransform) -> (r: Self)
        ensures
            r.mesh == mesh,
            r.transform_matrix@ == global.matrix_cols(),
    {
        Self { mesh, transform_matrix: global.to_matrix() }
    }
}

impl<'a> ComplexCollisionMeshAccess for ComplexCollisionMeshTransform<'a> {
    /// The image under the matrix of the point of the mesh that lies furthest
    /// along `direction` in the space of the mesh. The search does not turn
    /// the direction into that space, so the point is the furthest in world
    /// space only under a matrix that does not rotate.
    open spec fn support_point(&self, direction: Point) -> Point {
        transformed(self.transform_matrix@, self.mesh.support(direction))
    }

    fn find_furthest_point(&self, direction: Point) -> (r: Point) {
        let furthest_point = self.mesh.find_furthest_point(direction);
        self.transform_matrix.transform_point(furthest_point)
    }
}

/// Whether `direction` points into the half-space of `ao`: their dot product
/// is strictly greater than zero.
pub open spec fn same_direction(direction: Point, ao: Point) -> bool {
    greater(dot_product(direction, ao), ZERO)
}

/// The vector triple product `(a x b) x a`.
pub open spec fn triple_product(a: Point, b: Point) -> Point {
    cross_product(cross_product(a, b), a)
}

/// What one evolution of the simplex leaves: its points, the direction of the
/// next search, and whether the simplex encloses the origin.
pub struct SimplexStep {
    pub points: Seq<Point>,
    pub direction: Point,
    pub enclosed: bool,
}

/// The line case on the newest point `a` and the point `b` before it.
pub open spec fn line_step(a: Point, b: Point) -> SimplexStep {
    let ab = difference(b, a);
    let ao = opposite(a);
    if same_direction(ab, ao) {
        SimplexStep { points: seq![a, b], direction: triple_product(ab, ao), enclosed: false }
    } else {
        SimplexStep { points: seq![a], direction: ao, enclosed: false }
    }
}

/// The triangle case on the points `a`, `b`, `c`, newest first.
pub open spec fn triangle_step(a: Point, b: Point, c: Point) -> SimplexStep {
    let ab = difference(b, a);
    let ac = difference(c, a);
    let ao = opposite(a);
    let abc = cross_product(ab, ac);
    if same_direction(cross_product(abc, ac), ao) {
        if same_direction(ac, ao) {
            SimplexStep { points: seq![a, c], direction: triple_product(ac, ao), enclosed: false }
        } else {
            line_step(a, b)
        }
    } else if same_direction(cross_product(ab, abc), ao) {
        line_step(a, b)
    } else if same_direction(abc, ao) {
        SimplexStep { points: seq![a, b, c], direction: abc, enclosed: false }
    } else {
        SimplexStep { points: seq![a, c, b], direction: opposite(abc), enclosed: false }
    }
}

/// The tetrahedron case on the points `a`, `b`, `c`, `d`, newest first, with
/// `direction` the direction of the last search.
pub open spec fn tetrahedron_step(
    a: Point,
    b: Point,
    c: Point,
    d: Point,
    direction: Point,
) -> SimplexStep {
    let ab = difference(b, a);
    let ac = difference(c, a);
    let ad = difference(d, a);
    let ao = opposite(a);
    if same_direction(cross_product(ab, ac), ao) {
        triangle_step(a, b, c)
    } else if same_direction(cross_product(ac, ad), ao) {
        triangle_step(a, c, d)
    } else if same_direction(cross_product(ad, ab), ao) {
        triangle_step(a, d, b)
    } else {
        SimplexStep { points: seq![a, b, c, d], direction, enclosed: true }
    }
}

/// One evolution of a simplex of two, three or four points.
pub open spec fn evolve(points: Seq<Point>, direction: Point) -> SimplexStep {
    if points.len() == 2 {
        line_step(points[0], points[1])
    } else if points.len() == 3 {
        triangle_step(points[0], points[1], points[2])
    } else {
        tetrahedron_step(points[0], points[1], points[2], points[3], direction)
    }
}

/// `points` with `point` put in front, and cut to four points.
pub open spec fn pushed_front(points: Seq<Point>, point: Point) -> Seq<Point> {
    let all = seq![point] + points;
    if all.len() > 4 {
        all.take(4)
    } else {
        all
    }
}

/// Whether `points`, `direction` and `enclosed` are what `step` leaves.
pub open spec fn leaves(
    step: SimplexStep,
    points: Seq<Point>,
    direction: Point,
    enclosed: bool,
) -> bool {
    points == step.points && direction == step.direction && enclosed == step.enclosed
}

/// An evolution keeps the newest point in front, keeps only points that the
/// simplex had, and leaves at most three of them unless it reports the origin
/// enclosed, in which case it leaves the simplex and the direction alone.
pub proof fn lemma_evolve(points: Seq<Point>, direction: Point)
    requires
        2 <= points.len() <= 4,
    ensures
        evolve(points, direction).points.len() >= 1,
        evolve(points, direction).points[0] == points[0],
        forall|k: int|
            0 <= k < evolve(points, direction).points.len() ==> points.contains(
                #[trigger] evolve(points, direction).points[k],
            ),
        !evolve(points, direction).enclosed ==> evolve(points, direction).points.len() <= 3,
        evolve(points, direction).enclosed ==> points.len() == 4 && evolve(
            points,
            direction,
        ).points == points && evolve(points, direction).direction == direction,
{
    let out = evolve(points, direction).points;
    assert forall|k: int| 0 <= k < out.len() implies points.contains(#[trigger] out[k]) by {
        let p = out[k];
        assert(p == points[0] || p == points[1] || (points.len() >= 3 && p == points[2]) || (
        points.len() >= 4 && p == points[3]));
    }
    if evolve(points, direction).enclosed {
        assert(out =~= points);
    }
}

/// Tells whether `direction` points into the half-space of `ao`.
#[inline]
fn check_same_direction(direction: Point, ao: Point) -> (r: bool)
    ensures
        r == same_direction(direction, ao),
{
    is_greater(direction.dot(ao), ZERO)
}

/// The points of the current guess at a simplex around the origin, newest
/// first. It never holds more than four points.
pub struct Simplex {
    points: Vec<Point>,
}

impl Simplex {
    #[verifier::type_invariant]
    spec fn bounded(self) -> bool {
        self.points@.len() <= 4
    }

    /// The points of the simplex, newest first.
    pub closed spec fn view(&self) -> Seq<Point> {
        self.points@
    }

    /// A simplex without points.
    pub fn new() -> (r: Self)
        ensures
            r@ == Seq::<Point>::empty(),
    {
        Self { points: Vec::new() }
    }

    /// The points of the simplex, newest first.
    pub fn points(&self) -> (r: &Vec<Point>)
        ensures
            r@ == self@,
            r@.len() <= 4,
    {
        proof {
            use_type_invariant(self);
        }
        &self.points
    }

    /// Puts `point` in front of the others. Of five points the oldest is
    /// dropped.
    #[inline]
    pub fn push_front(&mut self, point: Point)
        ensures
            final(self)@ == pushed_front(old(self)@, point),
    {
        let kept: usize = if self.points.len() < 3 {
            self.points.len()
        } else {
            3
        };
        let mut fresh: Vec<Point> = Vec::new();
        fresh.push(point);
        let mut i: usize = 0;
        while i < kept
            invariant
                kept <= 3,
                kept <= self.points@.len(),
                i <= kept,
                fresh@ == (seq![point] + self.points@).take(i + 1),
            decreases kept - i,
        {
            fresh.push(self.points[i]);
            assert(fresh@ =~= (seq![point] + self.points@).take(i + 2));
            i += 1;
        }
        assert(fresh@ =~= pushed_front(self.points@, point));
        self.points = fresh;
    }

    /// Evolves a simplex of two, three or four points: it drops the points
    /// that cannot be part of a simplex around the origin and sets the
    /// direction of the next search. It returns whether the simplex encloses
    /// the origin.
    #[inline]
    pub fn next(&mut self, direction: &mut Point) -> (r: bool)
        requires
            2 <= old(self)@.len() <= 4,
        ensures
            leaves(evolve(old(self)@, *old(direction)), final(self)@, *final(direction), r),
    {
        let n = self.points.len();
        if n == 2 {
            self.line(direction)
        } else if n == 3 {
            self.triangle(direction)
        } else {
            self.tetrahedron(direction)
        }
    }

    /// The line case. Where the origin lies beside the edge from the newest
    /// point, both points stay and the next search goes at a right angle to
    /// the edge toward the origin; else only the newest point stays and the
    /// search goes from it toward the origin.
    pub fn line(&mut self, direction: &mut Point) -> (r: bool)
        requires
            old(self)@.len() == 2,
        ensures
            leaves(line_step(old(self)@[0], old(self)@[1]), final(self)@, *final(direction), r),
            !r,
    {
        let a = self.points[0];
        let b = self.points[1];

        let ab = b.sub(a);
        let ao = a.neg();

        if check_same_direction(ab, ao) {
            *direction = ab.cross(ao).cross(ab);
            assert(self.points@ =~= seq![a, b]);
        } else {
            self.points = vec![a];
            *direction = ao;
            assert(self.points@ =~= seq![a]);
        }
        false
    }

    /// The triangle case. Where the origin lies outside one of the two edges
    /// at the newest point, the simplex becomes a line; else all three points
    /// stay, in the winding that faces the origin, and the next search goes
    /// along the normal of the triangle on the side of the origin.
    pub fn triangle(&mut self, direction: &mut Point) -> (r: bool)
        requires
            old(self)@.len() == 3,
        ensures
            leaves(
                triangle_step(old(self)@[0], old(self)@[1], old(self)@[2]),
                final(self)@,
                *final(direction),
                r,
            ),
            !r,
    {
        let a = self.points[0];
        let b = self.points[1];
        let c = self.points[2];

        let ab = b.sub(a);
        let ac = c.sub(a);
        let ao = a.neg();

        let abc = ab.cross(ac);

        if check_same_direction(abc.cross(ac), ao) {
            if check_same_direction(ac, ao) {
                self.points = vec![a, c];
                *direction = ac.cross(ao).cross(ac);
                assert(self.points@ =~= seq![a, c]);
                false
            } else {
                self.points = vec![a, b];
                self.line(direction)
            }
        } else if check_same_direction(ab.cross(abc), ao) {
            self.points = vec![a, b];
            self.line(direction)
        } else {
            if check_same_direction(abc, ao) {
                *direction = abc;
                assert(self.points@ =~= seq![a, b, c]);
            } else {
                self.points = vec![a, c, b];
                *direction = abc.neg();
                assert(self.points@ =~= seq![a, c, b]);
            }
            false
        }
    }

    /// The tetrahedron case. Where the origin lies outside one of the three
    /// faces at the newest point, the point opposite that face is dropped and
    /// the triangle case decides; else the tetrahedron encloses the origin,
    /// and the simplex and the direction stay as they are.
    pub fn tetrahedron(&mut self, direction: &mut Point) -> (r: bool)
        requires
            old(self)@.len() == 4,
        ensures
            leaves(
                tetrahedron_step(
                    old(self)@[0],
                    old(self)@[1],
                    old(self)@[2],
                    old(self)@[3],
                    *old(direction),
                ),
                final(self)@,
                *final(direction),
                r,
            ),
    {
        let a = self.points[0];
        let b = self.points[1];
        let c = self.points[2];
        let d = self.points[3];

        let ab = b.sub(a);
        let ac = c.sub(a);
        let ad = d.sub(a);
        let ao = a.neg();

        let abc = ab.cross(ac);
        let acd = ac.cross(ad);
        let adb = ad.cross(ab);

        if check_same_direction(abc, ao) {
            self.points = vec![a, b, c];
            return self.triangle(direction);
        }
        if check_same_direction(acd, ao) {
            self.points = vec![a, c, d];
            return self.triangle(direction);
        }
        if check_same_direction(adb, ao) {
            self.points = vec![a, d, b];
            return self.triangle(direction);
        }
        assert(self.points@ =~= seq![a, b, c, d]);
        true
    }
}

/// How an intersection test ended.
#[derive(Clone, Copy, Debug, PartialEq, Eq, Structural)]
pub enum GjkOutcome {
    /// A tetrahedron of the Minkowski difference encloses the origin.
    Intersecting,
    /// A search found no point beyond the origin: the shapes are apart.
    Separated,
    /// The test gave up after `MAX_ROUNDS` rounds.
    Exhausted,
}

/// The support point of the Minkowski difference of `a` and `b` along
/// `direction`.
pub open spec fn minkowski_support<M1, M2>(a: &M1, b: &M2, direction: Point) -> Point where
    M1: ComplexCollisionMeshAccess,
    M2: ComplexCollisionMeshAccess,
 {
    difference(a.support_point(direction), b.support_point(opposite(direction)))
}

/// The outcome of at most `rounds` rounds from a simplex and a search
/// direction. A round finds the support point of the Minkowski difference
/// along the direction. Where that point does not lie beyond the origin, the
/// shapes are apart. Else the point goes in front of the simplex and the
/// simplex evolves, which ends the test if it encloses the origin.
pub open spec fn gjk_search<M1, M2>(
    a: &M1,
    b: &M2,
    simplex: Seq<Point>,
    direction: Point,
    rounds: nat,
) -> GjkOutcome where M1: ComplexCollisionMeshAccess, M2: ComplexCollisionMeshAccess
    decreases rounds,
{
    if rounds == 0 {
        GjkOutcome::Exhausted
    } else {
        let support = minkowski_support(a, b, direction);
        if at_most(dot_product(support, direction), ZERO) {
            GjkOutcome::Separated
        } else {
            let step = evolve(pushed_front(simplex, support), direction);
            if step.enclosed {
                GjkOutcome::Intersecting
            } else {
                gjk_search(a, b, step.points, step.direction, (rounds - 1) as nat)
            }
        }
    }
}

/// The outcome of the intersection test of `a` and `b` that starts its search
/// along `start_dir`: the first point of the simplex is the support point of
/// the Minkowski difference along `start_dir` scaled to length one, and the
/// first search goes from that point toward the origin.
pub open spec fn gjk_outcome<M1, M2>(a: &M1, b: &M2, start_dir: Point) -> GjkOutcome where
    M1: ComplexCollisionMeshAccess,
    M2: ComplexCollisionMeshAccess,
 {
    let first = minkowski_support(a, b, unit_vector(start_dir));
    gjk_search(a, b, seq![first], opposite(unit_vector(first)), MAX_ROUNDS as nat)
}

/// Whether `p` is the support point of the Minkowski difference of `a` and
/// `b` along some direction.
pub open spec fn is_difference_support<M1, M2>(a: &M1, b: &M2, p: Point) -> bool where
    M1: ComplexCollisionMeshAccess,
    M2: ComplexCollisionMeshAccess,
 {
    exists|direction: Point| p == #[trigger] minkowski_support(a, b, direction)
}

/// Whether the origin lies outside none of the three faces that meet at `a`
/// of the tetrahedron `a`, `b`, `c`, `d`.
pub open spec fn encloses_origin(a: Point, b: Point, c: Point, d: Point) -> bool {
    let ab = difference(b, a);
    let ac = difference(c, a);
    let ad = difference(d, a);
    let ao = opposite(a);
    !same_direction(cross_product(ab, ac), ao) && !same_direction(cross_product(ac, ad), ao)
        && !same_direction(cross_product(ad, ab), ao)
}

/// Whether four support points of the Minkowski difference of `a` and `b`
/// form a tetrahedron that encloses the origin.
pub open spec fn has_enclosing_tetrahedron<M1, M2>(a: &M1, b: &M2) -> bool where
    M1: ComplexCollisionMeshAccess,
    M2: ComplexCollisionMeshAccess,
 {
    exists|p: Point, q: Point, r: Point, s: Point|
        #[trigger] encloses_origin(p, q, r, s) && is_difference_support(a, b, p)
            && is_difference_support(a, b, q) && is_difference_support(a, b, r)
            && is_difference_support(a, b, s)
}

/// Whether along some direction the support point of the Minkowski difference
/// of `a` and `b` does not lie beyond the origin.
pub open spec fn has_separating_direction<M1, M2>(a: &M1, b: &M2) -> bool where
    M1: ComplexCollisionMeshAccess,
    M2: ComplexCollisionMeshAccess,
 {
    exists|direction: Point|
        at_most(dot_product(#[trigger] minkowski_support(a, b, direction), direction), ZERO)
}

/// A search from a simplex of support points of the Minkowski difference
/// ends with an intersection only if four such points form a tetrahedron
/// that encloses the origin, and ends with the shapes apart only if along some
/// direction the support point does not lie beyond the origin.
pub proof fn lemma_search_has_witness<M1, M2>(
    a: &M1,
    b: &M2,
    simplex: Seq<Point>,
    direction: Point,
    rounds: nat,
) where M1: ComplexCollisionMeshAccess, M2: ComplexCollisionMeshAccess
    requires
        1 <= simplex.len() <= 3,
        forall|k: int| 0 <= k < simplex.len() ==> is_difference_support(a, b, #[trigger] simplex[k]),
    ensures
        gjk_search(a, b, simplex, direction, rounds) == GjkOutcome::Intersecting
            ==> has_enclosing_tetrahedron(a, b),
        gjk_search(a, b, simplex, direction, rounds) == GjkOutcome::Separated
            ==> has_separating_direction(a, b),
    decreases rounds,
{
    if rounds > 0 {
        let support = minkowski_support(a, b, direction);
        if !at_most(dot_product(support, direction), ZERO) {
            let pushed = pushed_front(simplex, support);
            assert(pushed =~= seq![support] + simplex);
            assert(is_difference_support(a, b, support));
            assert forall|k: int| 0 <= k < pushed.len() implies is_difference_support(
                a,
                b,
                #[trigger] pushed[k],
            ) by {
                if k > 0 {
                    assert(pushed[k] == simplex[k - 1]);
                }
            }
            let step = evolve(pushed, direction);
            lemma_evolve(pushed, direction);
            if step.enclosed {
                assert(encloses_origin(pushed[0], pushed[1], pushed[2], pushed[3]));
            } else {
                assert forall|k: int| 0 <= k < step.points.len() implies is_difference_support(
                    a,
                    b,
                    #[trigger] step.points[k],
                ) by {
                    let p = step.points[k];
                    assert(pushed.contains(p));
                    let i = choose|i: int| 0 <= i < pushed.len() && pushed[i] == p;
                    assert(is_difference_support(a, b, pushed[i]));
                }
                lemma_search_has_witness(a, b, step.points, step.direction, (rounds - 1) as nat);
            }
        }
    }
}

/// What an outcome of the intersection test shows: an intersection comes with
/// a tetrahedron of four support points of the Minkowski difference that
/// encloses the origin, and shapes are reported apart only when along some
/// direction the support point does not lie beyond the origin.
pub proof fn lemma_outcome_has_witness<M1, M2>(a: &M1, b: &M2, start_dir: Point) where
    M1: ComplexCollisionMeshAccess,
    M2: ComplexCollisionMeshAccess,

    ensures
        gjk_outcome(a, b, start_dir) == GjkOutcome::Intersecting ==> has_enclosing_tetrahedron(
            a,
            b,
        ),
        gjk_outcome(a, b, start_dir) == GjkOutcome::Separated ==> has_separating_direction(a, b),
{
    let first = minkowski_support(a, b, unit_vector(start_dir));
    assert(is_difference_support(a, b, first));
    lemma_search_has_witness(a, b, seq![first], opposite(unit_vector(first)), MAX_ROUNDS as nat);
}

/// Finds the support point of the Minkowski difference of the two shapes.
fn support_of_difference<M1, M2>(mesh_a: &M1, mesh_b: &M2, direction: Point) -> (r: Point) where
    M1: ComplexCollisionMeshAccess,
    M2: ComplexCollisionMeshAccess,

    ensures
        r == minkowski_support(mesh_a, mesh_b, direction),
{
    mesh_a.find_furthest_point(direction).sub(mesh_b.find_furthest_point(direction.neg()))
}

/// Runs the intersection test of two shapes and says how it ended.
pub fn run_gjk<M1, M2>(mesh_a: &M1, mesh_b: &M2, start_dir: Point) -> (r: GjkOutcome) where
    M1: ComplexCollisionMeshAccess,
    M2: ComplexCollisionMeshAccess,

    ensures
        r == gjk_outcome(mesh_a, mesh_b, start_dir),
        r == GjkOutcome::Intersecting ==> has_enclosing_tetrahedron(mesh_a, mesh_b),
        r == GjkOutcome::Separated ==> has_separating_direction(mesh_a, mesh_b),
{
    proof {
        lemma_outcome_has_witness(mesh_a, mesh_b, start_dir);
    }
    let mut simplex = Simplex::new();

    let start = start_dir.normalize();

    let a = support_of_difference(mesh_a, mesh_b, start);
    simplex.push_front(a);
    assert(simplex@ =~= seq![a]);

    let mut next_dir = a.normalize().neg();

    let mut round: usize = 0;
    while round < MAX_ROUNDS
        invariant
            round <= MAX_ROUNDS,
            1 <= simplex@.len() <= 3,
            gjk_outcome(mesh_a, mesh_b, start_dir) == GjkOutcome::Intersecting
                ==> has_enclosing_tetrahedron(mesh_a, mesh_b),
            gjk_outcome(mesh_a, mesh_b, start_dir) == GjkOutcome::Separated
                ==> has_separating_direction(mesh_a, mesh_b),
            gjk_outcome(mesh_a, mesh_b, start_dir) == gjk_search(
                mesh_a,
                mesh_b,
                simplex@,
                next_dir,
                (MAX_ROUNDS - round) as nat,
            ),
        decreases MAX_ROUNDS - round,
    {
        let support = support_of_difference(mesh_a, mesh_b, next_dir);

        if is_at_most(support.dot(next_dir), ZERO) {
            return GjkOutcome::Separated;
        }
        proof {
            lemma_evolve(pushed_front(simplex@, support), next_dir);
        }
        simplex.push_front(support);

        if simplex.next(&mut next_dir) {
            return GjkOutcome::Intersecting;
        }
        round += 1;
    }
    GjkOutcome::Exhausted
}

/// Tells whether two convex shapes intersect. `start_dir` only seeds the
/// search. A test that gives up after `MAX_ROUNDS` rounds reports no
/// intersection.
///
/// Every comparison is exact: a dot product has to be strictly greater than
/// zero to count. Where the origin lies exactly on an edge of the simplex, as
/// it does between a support point and its mirror image when a shape is
/// tested against a copy of itself, the next search direction is the zero
/// vector and the test reports no intersection.
pub fn check_gjk<M1, M2>(mesh_a: &M1, mesh_b: &M2, start_dir: Point) -> (r: bool) where
    M1: ComplexCollisionMeshAccess,
    M2: ComplexCollisionMeshAccess,

    ensures
        r == (gjk_outcome(mesh_a, mesh_b, start_dir) == GjkOutcome::Intersecting),
        r ==> has_enclosing_tetrahedron(mesh_a, mesh_b),
{
    run_gjk(mesh_a, mesh_b, start_dir) == GjkOutcome::Intersecting
}

/// Rebuilding a cache twice in a row from the same mesh under the same matrix
/// leaves what the first rebuild left: the image of each point of the mesh at
/// the index of the point.
pub proof fn lemma_rebuild_is_idempotent(
    mesh: Seq<Point>,
    cols: Seq<u32>,
    once: Seq<Point>,
    twice: Seq<Point>,
)
    requires
        once == world_points(mesh, cols),
        twice == world_points(mesh, cols),
    ensures
        twice == once,
        once.len() == mesh.len(),
        forall|i: int| 0 <= i < mesh.len() ==> #[trigger] once[i] == transformed(cols, mesh[i]),
{
}

} // verus!

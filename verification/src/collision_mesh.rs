//! The collision mesh of a model: the distinct positions of its vertices.

use crate::distinct::{first_occurrences, lemma_first_occurrences};
use crate::shared::ModelVertex;
use crate::binary32::{at_most, greater};
use crate::support::{
    find_furthest, furthest_point, lemma_furthest_index, lemma_furthest_point_is_maximal,
    lemma_furthest_point_is_member, score, scores_are_numbers,
};
use crate::vector::{unit_vector, Point};
use vstd::prelude::*;

verus! {

/// The positions of `vertices`, in their order.
pub open spec fn positions(vertices: Seq<ModelVertex>) -> Seq<Point> {
    Seq::new(vertices.len(), |i: int| vertices[i].pos)
}

/// A point cloud for collision tests. It is never empty and holds no point
/// twice.
#[derive(Debug)]
pub struct CollisionMesh {
    points: Vec<Point>,
}

/// Tells whether `points` holds `p`.
fn holds(points: &Vec<Point>, p: Point) -> (r: bool)
    ensures
        r == points@.contains(p),
{
    let mut i: usize = 0;
    while i < points.len()
        invariant
            i <= points@.len(),
            forall|k: int| 0 <= k < i ==> points@[k] != p,
        decreases points@.len() - i,
    {
        if points[i] == p {
            return true;
        }
        i += 1;
    }
    false
}

impl CollisionMesh {
    #[verifier::type_invariant]
    spec fn well_formed(self) -> bool {
        self.points@.len() > 0 && self.points@.no_duplicates()
    }

    /// The points of the mesh, in their order.
    pub closed spec fn view(&self) -> Seq<Point> {
        self.points@
    }

    /// The point that `find_furthest_point` returns for `direction`: the
    /// point that lies furthest along the direction scaled to length one.
    pub open spec fn support(&self, direction: Point) -> Point {
        furthest_point(self@, unit_vector(direction))
    }

    /// Builds the mesh of a model from its vertices. The points are the
    /// positions of the vertices in the order of their first occurrence, each
    /// once; positions are the same when their bit patterns are. Without
    /// vertices there is no mesh.
    pub fn from_model_vertices(vertices: &[ModelVertex]) -> (r: Option<Self>)
        ensures
            r.is_none() <==> vertices@.len() == 0,
            r matches Some(mesh) ==> {
                &&& mesh@ == first_occurrences(positions(vertices@))
                &&& mesh@.no_duplicates()
                &&& 0 < mesh@.len() <= vertices@.len()
                &&& forall|p: Point| mesh@.contains(p) <==> positions(vertices@).contains(p)
            },
    {
        let ghost all = positions(vertices@);
        let mut points: Vec<Point> = Vec::new();
        let mut i: usize = 0;
        assert(all.take(0) =~= Seq::<Point>::empty());
        while i < vertices.len()
            invariant
                i <= vertices@.len(),
                all == positions(vertices@),
                points@ == first_occurrences(all.take(i as int)),
            decreases vertices@.len() - i,
        {
            let p = vertices[i].pos;
            proof {
                assert(all.take(i + 1).drop_last() =~= all.take(i as int));
                assert(all.take(i + 1).last() == p);
            }
            if !holds(&points, p) {
                points.push(p);
            }
            i += 1;
        }
        proof {
            assert(all.take(i as int) =~= all);
            lemma_first_occurrences(all);
        }
        if points.len() == 0 {
            None
        } else {
            Some(Self { points })
        }
    }

    /// The points of the mesh.
    pub fn points(&self) -> (r: &Vec<Point>)
        ensures
            r@ == self@,
            r@.len() > 0,
            r@.no_duplicates(),
    {
        proof {
            use_type_invariant(self);
        }
        &self.points
    }

    /// The point of the mesh that lies furthest along `direction`. The
    /// direction is first scaled to length one. The result is a point of the
    /// mesh, and no point of the mesh lies strictly further along the
    /// direction; where no point has a NaN for its score, every point lies at
    /// most as far as the result. Of points that lie equally far the earliest
    /// is returned.
    pub fn find_furthest_point(&self, direction: Point) -> (r: Point)
        ensures
            r == self.support(direction),
            self@.contains(r),
            forall|j: int|
                0 <= j < self@.len() ==> !greater(
                    #[trigger] score(self@[j], unit_vector(direction)),
                    score(r, unit_vector(direction)),
                ),
            scores_are_numbers(self@, unit_vector(direction)) ==> forall|j: int|
                0 <= j < self@.len() ==> at_most(
                    #[trigger] score(self@[j], unit_vector(direction)),
                    score(r, unit_vector(direction)),
                ),
    {
        proof {
            use_type_invariant(self);
            let unit = unit_vector(direction);
            lemma_furthest_point_is_member(self@, unit);
            lemma_furthest_index(self@, unit, self@.len() as int);
            if scores_are_numbers(self@, unit) {
                assert forall|j: int| 0 <= j < self@.len() implies at_most(
                    #[trigger] score(self@[j], unit),
                    score(furthest_point(self@, unit), unit),
                ) by {
                    lemma_furthest_point_is_maximal(self@, unit, j);
                }
            }
        }
        let direction = direction.normalize();
        find_furthest(&self.points, direction)
    }
}

} // verus!

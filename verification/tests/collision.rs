use feathered::collision_mesh::CollisionMesh;
use feathered::gjk::{
    check_gjk, entities_to_rebuild, run_gjk, BuiltComplexCollisionMesh,
    ComplexCollisionMeshAccess, ComplexCollisionMeshTransform, GjkOutcome, Simplex,
};
use feathered::shared::ModelVertex;
use feathered::spatial::GlobalTransform;
use feathered::vector::{Matrix4, Point};

fn pt(x: f32, y: f32, z: f32) -> Point {
    Point::new(x.to_bits(), y.to_bits(), z.to_bits())
}

fn vertex(x: f32, y: f32, z: f32) -> ModelVertex {
    ModelVertex { pos: pt(x, y, z), uv: [0, 0], normal: pt(0.0, 0.0, 1.0) }
}

fn mesh_of(points: &[(f32, f32, f32)]) -> CollisionMesh {
    let vertices: Vec<ModelVertex> = points.iter().map(|p| vertex(p.0, p.1, p.2)).collect();
    CollisionMesh::from_model_vertices(&vertices).unwrap()
}

fn cube_corners(cx: f32, cy: f32, cz: f32) -> Vec<(f32, f32, f32)> {
    let mut out = Vec::new();
    for dx in [-0.5f32, 0.5] {
        for dy in [-0.5f32, 0.5] {
            for dz in [-0.5f32, 0.5] {
                out.push((cx + dx, cy + dy, cz + dz));
            }
        }
    }
    out
}

fn translation(x: f32, y: f32, z: f32) -> GlobalTransform {
    let mut t = GlobalTransform::identity();
    t.translation = pt(x, y, z);
    t
}

fn built(mesh: &CollisionMesh, matrix: &Matrix4) -> BuiltComplexCollisionMesh {
    let mut cache = BuiltComplexCollisionMesh::new();
    cache.rebuild(mesh, matrix);
    cache
}

fn cube_at(x: f32, y: f32, z: f32) -> BuiltComplexCollisionMesh {
    built(&mesh_of(&cube_corners(0.0, 0.0, 0.0)), &translation(x, y, z).to_matrix())
}

#[test]
fn no_vertices_give_no_mesh() {
    assert!(CollisionMesh::from_model_vertices(&[]).is_none());
}

#[test]
fn three_pairs_of_equal_vertices_give_three_points() {
    let vertices = [
        vertex(0.0, 0.0, 0.0),
        vertex(1.0, 0.0, 0.0),
        vertex(0.0, 0.0, 0.0),
        vertex(0.0, 1.0, 0.0),
        vertex(1.0, 0.0, 0.0),
        vertex(0.0, 1.0, 0.0),
    ];
    let mesh = CollisionMesh::from_model_vertices(&vertices).unwrap();
    assert_eq!(
        mesh.points(),
        &vec![pt(0.0, 0.0, 0.0), pt(1.0, 0.0, 0.0), pt(0.0, 1.0, 0.0)]
    );
}

#[test]
fn vertices_that_differ_only_off_position_collapse() {
    let mut a = vertex(1.0, 2.0, 3.0);
    let mut b = vertex(1.0, 2.0, 3.0);
    a.uv = [1, 2];
    b.normal = pt(1.0, 0.0, 0.0);
    let mesh = CollisionMesh::from_model_vertices(&[a, b]).unwrap();
    assert_eq!(mesh.points().len(), 1);
}

#[test]
fn the_two_zeros_are_two_points() {
    let mesh = mesh_of(&[(0.0, 0.0, 0.0), (-0.0, 0.0, 0.0)]);
    assert_eq!(mesh.points().len(), 2);
}

#[test]
fn a_cube_of_twenty_four_vertices_has_eight_points() {
    let mut vertices = Vec::new();
    for _face in 0..3 {
        for c in cube_corners(0.0, 0.0, 0.0) {
            vertices.push(vertex(c.0, c.1, c.2));
        }
    }
    let mesh = CollisionMesh::from_model_vertices(&vertices).unwrap();
    assert_eq!(mesh.points().len(), 8);
}

#[test]
fn furthest_point_is_a_point_of_the_mesh() {
    let mesh = mesh_of(&[(0.0, 0.0, 0.0), (1.0, 0.0, 0.0), (0.0, 1.0, 0.0)]);
    for d in [(1.0f32, 0.0f32, 0.0f32), (0.0, 1.0, 0.0), (-1.0, -1.0, 0.0), (0.3, 0.2, 5.0)] {
        let r = mesh.find_furthest_point(pt(d.0, d.1, d.2));
        assert!(mesh.points().contains(&r));
    }
}

#[test]
fn furthest_point_has_the_greatest_projection() {
    let mesh = mesh_of(&[(0.0, 0.0, 0.0), (1.0, 0.0, 0.0), (0.0, 1.0, 0.0), (-2.0, 0.5, 1.0)]);
    assert_eq!(mesh.find_furthest_point(pt(1.0, 0.0, 0.0)), pt(1.0, 0.0, 0.0));
    assert_eq!(mesh.find_furthest_point(pt(0.0, 2.0, 0.0)), pt(0.0, 1.0, 0.0));
    assert_eq!(mesh.find_furthest_point(pt(-1.0, 0.0, 0.0)), pt(-2.0, 0.5, 1.0));
    let d = pt(0.6, 0.8, 0.0);
    let r = mesh.find_furthest_point(d);
    let best = f32::from_bits(r.dot(d.normalize()));
    for p in mesh.points() {
        assert!(best >= f32::from_bits(p.dot(d.normalize())));
    }
}

#[test]
fn of_equally_far_points_the_first_is_returned() {
    let mesh = mesh_of(&[(1.0, 5.0, 0.0), (1.0, -5.0, 0.0), (0.0, 0.0, 0.0), (1.0, 0.0, 7.0)]);
    assert_eq!(mesh.find_furthest_point(pt(1.0, 0.0, 0.0)), pt(1.0, 5.0, 0.0));
}

#[test]
fn all_negative_projections_still_give_the_greatest() {
    let mesh = mesh_of(&[(-3.0, 0.0, 0.0), (-1.0, 0.0, 0.0), (-2.0, 0.0, 0.0)]);
    assert_eq!(mesh.find_furthest_point(pt(1.0, 0.0, 0.0)), pt(-1.0, 0.0, 0.0));
    let cache = built(&mesh, &Matrix4::identity());
    assert_eq!(cache.find_furthest_point(pt(1.0, 0.0, 0.0)), pt(-1.0, 0.0, 0.0));
}

#[test]
fn a_zero_direction_keeps_the_first_point() {
    let mesh = mesh_of(&[(0.0, 1.0, 0.0), (1.0, 0.0, 0.0)]);
    assert_eq!(mesh.find_furthest_point(pt(0.0, 0.0, 0.0)), pt(0.0, 1.0, 0.0));
}

#[test]
fn an_empty_cache_answers_with_the_origin() {
    let cache = BuiltComplexCollisionMesh::new();
    assert_eq!(cache.find_furthest_point(pt(1.0, 0.0, 0.0)), pt(0.0, 0.0, 0.0));
    assert_eq!(cache.points().len(), 0);
}

#[test]
fn cache_of_a_triangle_under_the_identity() {
    let mesh = mesh_of(&[(0.0, 0.0, 0.0), (1.0, 0.0, 0.0), (0.0, 1.0, 0.0)]);
    let cache = built(&mesh, &GlobalTransform::identity().to_matrix());
    assert_eq!(
        cache.points(),
        &vec![pt(0.0, 0.0, 0.0), pt(1.0, 0.0, 0.0), pt(0.0, 1.0, 0.0)]
    );
}

#[test]
fn cache_holds_the_transformed_points_in_order() {
    let mesh = mesh_of(&[(0.0, 0.0, 0.0), (1.0, 0.0, 0.0), (0.0, 1.0, 0.0)]);
    let mut t = translation(10.0, 20.0, 30.0);
    t.x_axis = pt(2.0, 0.0, 0.0);
    let cache = built(&mesh, &t.to_matrix());
    assert_eq!(
        cache.points(),
        &vec![pt(10.0, 20.0, 30.0), pt(12.0, 20.0, 30.0), pt(10.0, 21.0, 30.0)]
    );
}

#[test]
fn rebuilding_twice_changes_nothing() {
    let mesh = mesh_of(&cube_corners(0.25, -1.0, 3.0));
    let matrix = translation(0.1, 0.2, 0.3).to_matrix();
    let mut cache = BuiltComplexCollisionMesh::new();
    cache.rebuild(&mesh, &matrix);
    let once = cache.points().clone();
    cache.rebuild(&mesh, &matrix);
    assert_eq!(cache.points(), &once);
    assert_eq!(once.len(), mesh.points().len());
}

#[test]
fn a_cache_of_another_length_is_rebuilt_whole() {
    let large = mesh_of(&cube_corners(0.0, 0.0, 0.0));
    let small = mesh_of(&[(1.0, 1.0, 1.0), (2.0, 2.0, 2.0)]);
    let matrix = translation(1.0, 0.0, 0.0).to_matrix();
    let mut cache = BuiltComplexCollisionMesh::new();
    cache.rebuild(&large, &matrix);
    assert_eq!(cache.points().len(), 8);
    cache.rebuild(&small, &matrix);
    assert_eq!(cache.points(), &vec![pt(2.0, 1.0, 1.0), pt(3.0, 2.0, 2.0)]);
    cache.rebuild(&large, &matrix);
    assert_eq!(cache.points().len(), 8);
    assert_eq!(cache.points()[7], pt(1.5, 0.5, 0.5));
}

#[test]
fn dirty_entities_are_listed_once() {
    let r = entities_to_rebuild(&vec![3, 1, 3, 7], &vec![1, 9, 7, 9, 2]);
    assert_eq!(r, vec![3, 1, 7, 9, 2]);
    assert_eq!(entities_to_rebuild(&vec![], &vec![]), Vec::<u64>::new());
    assert_eq!(entities_to_rebuild(&vec![5], &vec![]), vec![5]);
    assert_eq!(entities_to_rebuild(&vec![], &vec![5, 5]), vec![5]);
}

#[test]
fn overlapping_cubes_intersect() {
    let a = cube_at(0.0, 0.0, 0.0);
    let b = cube_at(0.5, 0.0, 0.0);
    assert!(check_gjk(&a, &b, pt(1.0, 2.0, 3.0)));
    assert_eq!(run_gjk(&a, &b, pt(1.0, 2.0, 3.0)), GjkOutcome::Intersecting);
    assert!(check_gjk(&a, &b, pt(1.0, 1.0, 0.0)));
}

#[test]
fn a_search_through_the_origin_collapses() {
    // The first two support points lie on a line through the origin, so the
    // next direction is the zero vector and no point lies beyond the origin.
    let a = cube_at(0.0, 0.0, 0.0);
    let b = cube_at(0.5, 0.0, 0.0);
    assert_eq!(run_gjk(&a, &b, pt(1.0, 0.0, 0.0)), GjkOutcome::Separated);
    assert_eq!(run_gjk(&a, &a, pt(1.0, 2.0, 3.0)), GjkOutcome::Separated);
}

#[test]
fn distant_cubes_do_not_intersect() {
    let a = cube_at(0.0, 0.0, 0.0);
    let b = cube_at(2.0, 0.0, 0.0);
    assert!(!check_gjk(&a, &b, pt(1.0, 0.0, 0.0)));
    assert_eq!(run_gjk(&a, &b, pt(1.0, 0.0, 0.0)), GjkOutcome::Separated);
}

#[test]
fn the_outcome_does_not_depend_on_the_order_of_the_shapes() {
    let a = cube_at(0.0, 0.0, 0.0);
    for (x, y, z) in [(0.5f32, 0.0f32, 0.0f32), (2.0, 0.0, 0.0), (0.9, 0.9, 0.9), (0.0, 1.5, 0.0), (0.3, -0.2, 0.7)] {
        let b = cube_at(x, y, z);
        for d in [(1.0f32, 0.0f32, 0.0f32), (0.0, 1.0, 0.0), (1.0, 2.0, 3.0), (-1.0, 0.5, 0.0)] {
            let dir = pt(d.0, d.1, d.2);
            assert_eq!(check_gjk(&a, &b, dir), check_gjk(&b, &a, dir));
        }
    }
}

#[test]
fn several_start_directions_agree() {
    let a = cube_at(0.0, 0.0, 0.0);
    let near = cube_at(0.3, -0.2, 0.7);
    let far = cube_at(0.0, 3.0, 0.0);
    for d in [(1.0f32, 0.0f32, 0.0f32), (0.0, 1.0, 0.0), (0.0, 0.0, -1.0), (1.0, 2.0, 3.0), (-4.0, 0.5, 0.25)] {
        let dir = pt(d.0, d.1, d.2);
        assert!(check_gjk(&a, &near, dir));
        assert!(!check_gjk(&a, &far, dir));
    }
}

#[test]
fn a_shape_intersects_its_copy() {
    let corners = [(1.5, -0.25, -1.25), (1.0, 1.75, -0.75), (-0.25, -0.75, 1.25), (2.0, 1.0, 0.5)];
    let a = built(&mesh_of(&corners), &Matrix4::identity());
    let copy = built(&mesh_of(&corners), &translation(0.0, 0.0, 0.0).to_matrix());
    assert!(check_gjk(&a, &copy, pt(2.0, -1.0, 1.0)));
    assert!(check_gjk(&a, &a, pt(2.0, -1.0, 1.0)));
}

#[test]
fn a_single_point_against_itself_counts_as_apart() {
    let p = built(&mesh_of(&[(1.0, 2.0, 3.0)]), &Matrix4::identity());
    assert_eq!(run_gjk(&p, &p, pt(1.0, 0.0, 0.0)), GjkOutcome::Separated);
}

#[test]
fn a_cube_moved_beyond_twice_its_extent_is_apart() {
    let a = cube_at(0.0, 0.0, 0.0);
    for (x, y, z) in [(2.5f32, 0.0f32, 0.0f32), (0.0, -2.5, 0.0), (0.0, 0.0, 100.0), (-3.0, 3.0, 3.0)] {
        let b = cube_at(x, y, z);
        assert!(!check_gjk(&a, &b, pt(1.0, 0.0, 0.0)));
        assert!(!check_gjk(&a, &b, pt(0.0, -1.0, 1.0)));
    }
}

#[test]
fn a_search_that_never_settles_gives_up() {
    let a = built(&mesh_of(&[(f32::NAN, 0.0, 0.0)]), &Matrix4::identity());
    let b = built(&mesh_of(&[(0.0, 0.0, 0.0)]), &Matrix4::identity());
    assert_eq!(run_gjk(&a, &b, pt(1.0, 0.0, 0.0)), GjkOutcome::Exhausted);
    assert!(!check_gjk(&a, &b, pt(1.0, 0.0, 0.0)));
}

#[test]
fn cache_and_mesh_with_transform_can_be_mixed() {
    let mesh = mesh_of(&cube_corners(0.0, 0.0, 0.0));
    let still = ComplexCollisionMeshTransform::from_global(&mesh, &GlobalTransform::identity());
    let near = ComplexCollisionMeshTransform::from_global(&mesh, &translation(0.5, 0.0, 0.0));
    let far = ComplexCollisionMeshTransform::from_global(&mesh, &translation(2.0, 0.0, 0.0));
    let cached_near = cube_at(0.5, 0.0, 0.0);
    let cached_far = cube_at(2.0, 0.0, 0.0);
    let dir = pt(1.0, 2.0, 3.0);
    assert!(check_gjk(&still, &near, dir));
    assert!(!check_gjk(&still, &far, dir));
    assert!(check_gjk(&still, &cached_near, dir));
    assert!(!check_gjk(&cached_far, &still, dir));
}

#[test]
fn mesh_with_transform_moves_its_furthest_point() {
    let mesh = mesh_of(&[(0.0, 0.0, 0.0), (1.0, 0.0, 0.0), (0.0, 1.0, 0.0)]);
    let shape = ComplexCollisionMeshTransform::from_global(&mesh, &translation(5.0, 6.0, 7.0));
    assert_eq!(shape.find_furthest_point(pt(1.0, 0.0, 0.0)), pt(6.0, 6.0, 7.0));
    assert_eq!(shape.find_furthest_point(pt(0.0, 3.0, 0.0)), pt(5.0, 7.0, 7.0));
}

#[test]
fn global_transform_gives_its_matrix_by_columns() {
    let t = GlobalTransform {
        x_axis: pt(1.0, 2.0, 3.0),
        y_axis: pt(4.0, 5.0, 6.0),
        z_axis: pt(7.0, 8.0, 9.0),
        translation: pt(10.0, 11.0, 12.0),
    };
    let expected: Vec<u32> = [
        1.0f32, 2.0, 3.0, 0.0, 4.0, 5.0, 6.0, 0.0, 7.0, 8.0, 9.0, 0.0, 10.0, 11.0, 12.0, 1.0,
    ]
    .iter()
    .map(|v| v.to_bits())
    .collect();
    assert_eq!(t.to_matrix().cols.to_vec(), expected);
    assert_eq!(t.translation(), pt(10.0, 11.0, 12.0));
}

#[test]
fn simplex_keeps_the_four_newest_points() {
    let mut s = Simplex::new();
    for i in 1..=5 {
        s.push_front(pt(i as f32, 0.0, 0.0));
    }
    assert_eq!(
        s.points(),
        &vec![pt(5.0, 0.0, 0.0), pt(4.0, 0.0, 0.0), pt(3.0, 0.0, 0.0), pt(2.0, 0.0, 0.0)]
    );
}

#[test]
fn line_case_keeps_both_points_beside_the_origin() {
    let mut s = Simplex::new();
    s.push_front(pt(1.0, 1.0, 0.0));
    s.push_front(pt(-1.0, 1.0, 0.0));
    let mut dir = pt(9.0, 9.0, 9.0);
    assert!(!s.next(&mut dir));
    assert_eq!(s.points(), &vec![pt(-1.0, 1.0, 0.0), pt(1.0, 1.0, 0.0)]);
    assert_eq!(dir, pt(0.0, -4.0, 0.0));
}

#[test]
fn line_case_drops_the_older_point_behind_the_newest() {
    let mut s = Simplex::new();
    s.push_front(pt(3.0, 0.0, 0.0));
    s.push_front(pt(1.0, 0.0, 0.0));
    let mut dir = pt(9.0, 9.0, 9.0);
    assert!(!s.line(&mut dir));
    assert_eq!(s.points(), &vec![pt(1.0, 0.0, 0.0)]);
    assert_eq!(dir, pt(-1.0, -0.0, -0.0));
}

#[test]
fn triangle_case_above_the_origin_turns_toward_it() {
    let mut s = Simplex::new();
    s.push_front(pt(-1.0, -1.0, 1.0));
    s.push_front(pt(1.0, -1.0, 1.0));
    s.push_front(pt(0.0, 1.0, 1.0));
    let mut dir = pt(0.0, 0.0, 0.0);
    assert!(!s.triangle(&mut dir));
    assert_eq!(s.points().len(), 3);
    assert_eq!(s.points()[0], pt(0.0, 1.0, 1.0));
    assert!(f32::from_bits(dir.z) < 0.0);
    assert_eq!(f32::from_bits(dir.x), 0.0);
    assert_eq!(f32::from_bits(dir.y), 0.0);
}

#[test]
fn triangle_case_outside_an_edge_becomes_a_line() {
    let mut s = Simplex::new();
    s.push_front(pt(5.0, 5.0, 0.0));
    s.push_front(pt(1.0, -1.0, 0.0));
    s.push_front(pt(1.0, 1.0, 0.0));
    let mut dir = pt(0.0, 0.0, 0.0);
    assert!(!s.next(&mut dir));
    assert_eq!(s.points(), &vec![pt(1.0, 1.0, 0.0), pt(1.0, -1.0, 0.0)]);
}

#[test]
fn tetrahedron_around_the_origin_encloses_it() {
    let mut s = Simplex::new();
    s.push_front(pt(1.0, 1.0, 1.0));
    s.push_front(pt(1.0, -1.0, -1.0));
    s.push_front(pt(-1.0, 1.0, -1.0));
    s.push_front(pt(-1.0, -1.0, 1.0));
    let before = s.points().clone();
    let mut dir = pt(1.0, 2.0, 3.0);
    assert!(s.next(&mut dir));
    assert_eq!(s.points(), &before);
    assert_eq!(dir, pt(1.0, 2.0, 3.0));
}

#[test]
fn tetrahedron_beside_the_origin_drops_a_point() {
    let mut s = Simplex::new();
    s.push_front(pt(11.0, 1.0, 1.0));
    s.push_front(pt(11.0, -1.0, -1.0));
    s.push_front(pt(9.0, 1.0, -1.0));
    s.push_front(pt(9.0, -1.0, 1.0));
    let mut dir = pt(1.0, 2.0, 3.0);
    assert!(!s.tetrahedron(&mut dir));
    assert!(s.points().len() <= 3);
    assert_eq!(s.points()[0], pt(9.0, -1.0, 1.0));
}

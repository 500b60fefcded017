use fj_kernel::objects::{
    Cycle, GlobalEdge, GlobalVertex, HalfEdge, Insert, Objects, Point2, Point3, SurfaceVertex,
};
use fj_kernel::storage::Handle;
use fj_kernel::validate::{
    CycleValidationError, HalfEdgeValidationError, ValidationConfig, ValidationError,
};

fn config(distinct_min_distance: u32) -> ValidationConfig {
    ValidationConfig { distinct_min_distance }
}

/// A line segment from `a` to `b` along the x axis, and its global vertices
fn segment(objects: &mut Objects, a: i32, b: i32) -> (HalfEdge, Handle, Handle) {
    let ga = GlobalVertex::new(Point3 { x: a, y: 0, z: 0 }).insert(objects);
    let gb = GlobalVertex::new(Point3 { x: b, y: 0, z: 0 }).insert(objects);
    let sa = SurfaceVertex::new(Point2 { u: a, v: 0 }, ga).insert(objects);
    let sb = SurfaceVertex::new(Point2 { u: b, v: 0 }, gb).insert(objects);
    let edge = GlobalEdge::new((ga, gb)).insert(objects);
    (HalfEdge::new((a, b), (sa, sb), edge), ga, gb)
}

#[test]
fn half_edge_global_vertex_mismatch() {
    let mut objects = Objects::new();
    let (valid, ga, gb) = segment(&mut objects, 0, 1);

    // Equal but not identical vertices.
    let ga2 = GlobalVertex::new(objects.global_vertices.get(ga).position()).insert(&mut objects);
    let gb2 = GlobalVertex::new(objects.global_vertices.get(gb).position()).insert(&mut objects);
    let global_form = GlobalEdge::new((ga2, gb2)).insert(&mut objects);
    let invalid = HalfEdge::new((valid.back, valid.front), (valid.start_vertex, valid.end_vertex), global_form);

    assert_eq!(valid.validate_and_return_first_error(&objects, &config(1)), Ok(()));
    assert!(invalid.validate_and_return_first_error(&objects, &config(1)).is_err());
    assert_eq!(
        invalid.validate(&objects, &config(1)),
        vec![ValidationError::HalfEdge(HalfEdgeValidationError::GlobalVertexMismatch {
            global_vertex_from_half_edge: ga,
            global_vertex_a_from_global_form: ga2,
            global_vertex_b_from_global_form: gb2,
            half_edge: invalid,
        })]
    );
}

#[test]
fn half_edge_vertices_are_coincident() {
    let mut objects = Objects::new();
    let (valid, _, _) = segment(&mut objects, 0, 1);
    let invalid = HalfEdge::new((0, 0), (valid.start_vertex, valid.end_vertex), valid.global_form);

    assert_eq!(valid.validate_and_return_first_error(&objects, &config(1)), Ok(()));
    assert_eq!(
        invalid.validate_and_return_first_error(&objects, &config(1)),
        Err(ValidationError::HalfEdge(HalfEdgeValidationError::VerticesAreCoincident {
            back_position: 0,
            front_position: 0,
            distance: 0,
            half_edge: invalid,
        }))
    );
}

#[test]
fn global_vertices_closer_than_tolerance_are_reported() {
    let mut objects = Objects::new();
    let (he, ga, gb) = segment(&mut objects, 0, 3);
    let close = ValidationError::HalfEdge(HalfEdgeValidationError::GlobalVerticesAreCoincident {
        global_vertex_a: ga,
        global_vertex_b: gb,
        half_edge: he,
    });
    // The curve coordinates are 3 apart as well; a tolerance of 4 reports both.
    let errors = he.validate(&objects, &config(4));
    assert_eq!(errors.len(), 2);
    assert_eq!(errors[1], close);
    assert!(he.validate(&objects, &config(3)).is_empty());
    assert!(he.validate(&objects, &config(2)).is_empty());
}

#[test]
fn all_failing_checks_are_collected() {
    let mut objects = Objects::new();
    let (valid, ga, _) = segment(&mut objects, 0, 0);
    let other = GlobalVertex::new(Point3 { x: 9, y: 9, z: 9 }).insert(&mut objects);
    let edge = GlobalEdge::new((other, other)).insert(&mut objects);
    let he = HalfEdge::new((5, 5), (valid.start_vertex, valid.end_vertex), edge);
    let errors = he.validate(&objects, &config(1));
    assert_eq!(errors.len(), 3);
    assert!(matches!(
        errors[0],
        ValidationError::HalfEdge(HalfEdgeValidationError::GlobalVertexMismatch { global_vertex_from_half_edge, .. })
            if global_vertex_from_half_edge == ga
    ));
    assert!(matches!(
        errors[1],
        ValidationError::HalfEdge(HalfEdgeValidationError::VerticesAreCoincident { distance: 0, .. })
    ));
    assert!(matches!(
        errors[2],
        ValidationError::HalfEdge(HalfEdgeValidationError::GlobalVerticesAreCoincident { .. })
    ));
}

#[test]
fn same_global_vertex_at_both_ends_is_not_a_distance_error() {
    let mut objects = Objects::new();
    let g = GlobalVertex::new(Point3 { x: 0, y: 0, z: 0 }).insert(&mut objects);
    let sa = SurfaceVertex::new(Point2 { u: 0, v: 0 }, g).insert(&mut objects);
    let sb = SurfaceVertex::new(Point2 { u: 7, v: 0 }, g).insert(&mut objects);
    let edge = GlobalEdge::new((g, g)).insert(&mut objects);
    let he = HalfEdge::new((0, 7), (sa, sb), edge);
    assert!(he.validate(&objects, &config(5)).is_empty());
}

#[test]
fn normalized_order_sorts_by_identity() {
    let a = Handle { id: 4 };
    let b = Handle { id: 2 };
    assert_eq!(GlobalEdge::new((a, b)).vertices_in_normalized_order(), (b, a));
    assert_eq!(GlobalEdge::new((b, a)).vertices_in_normalized_order(), (b, a));
}

fn closed_pair(objects: &mut Objects) -> (Handle, Handle, Handle, Handle) {
    let ga = GlobalVertex::new(Point3 { x: 0, y: 0, z: 0 }).insert(objects);
    let gb = GlobalVertex::new(Point3 { x: 5, y: 0, z: 0 }).insert(objects);
    let sa = SurfaceVertex::new(Point2 { u: 0, v: 0 }, ga).insert(objects);
    let sb = SurfaceVertex::new(Point2 { u: 5, v: 0 }, gb).insert(objects);
    let edge = GlobalEdge::new((ga, gb)).insert(objects);
    let first = HalfEdge::new((0, 5), (sa, sb), edge).insert(objects);
    let second = HalfEdge::new((5, 0), (sb, sa), edge).insert(objects);
    (first, second, sa, gb)
}

#[test]
fn closed_cycle_is_valid() {
    let mut objects = Objects::new();
    let (first, second, _, _) = closed_pair(&mut objects);
    let cycle = Cycle::new(vec![first, second]);
    assert!(cycle.validate(&objects, &config(1)).is_empty());
}

#[test]
fn open_cycle_reports_each_gap() {
    let mut objects = Objects::new();
    let (first, _, sa, gb) = closed_pair(&mut objects);
    let cycle = Cycle::new(vec![first]);
    let errors = cycle.validate(&objects, &config(1));
    let end = objects.surface_vertices.get(objects.half_edges.get(first).end_vertex).global_form;
    let start = objects.surface_vertices.get(sa).global_form;
    assert_eq!(end, gb);
    assert_eq!(
        errors,
        vec![ValidationError::Cycle(CycleValidationError::HalfEdgesDisconnected {
            index: 0,
            end_of_half_edge: gb,
            start_of_next: start,
        })]
    );
}

#[test]
fn cycle_first_error_is_the_half_edge_error() {
    let mut objects = Objects::new();
    let (first, second, _, _) = closed_pair(&mut objects);
    let cycle = Cycle::new(vec![first, second]);
    assert_eq!(cycle.validate_and_return_first_error(&objects, &config(1)), Ok(()));
    let errors = cycle.validate(&objects, &config(6));
    assert_eq!(errors.len(), 4);
    assert_eq!(cycle.validate_and_return_first_error(&objects, &config(6)), Err(errors[0]));
}

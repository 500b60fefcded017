use fj_kernel::objects::{
    Cycle, GlobalEdge, GlobalVertex, HalfEdge, Insert, Objects, Point2, Point3, SurfaceVertex,
};
use fj_kernel::transform::{transform_cycle, transform_global_vertex, Transform, TransformCache};

fn motion(quarter_turns: u8, x: i32, y: i32, z: i32) -> Transform {
    Transform { quarter_turns, translation: Point3 { x, y, z } }
}

#[test]
fn transform_point_rotates_then_translates() {
    let p = Point3 { x: 1, y: 2, z: 3 };
    assert_eq!(motion(0, 10, 0, 0).transform_point(p), Some(Point3 { x: 11, y: 2, z: 3 }));
    assert_eq!(motion(1, 0, 0, 0).transform_point(p), Some(Point3 { x: -2, y: 1, z: 3 }));
    assert_eq!(motion(2, 0, 0, 1).transform_point(p), Some(Point3 { x: -1, y: -2, z: 4 }));
    assert_eq!(motion(7, 0, 0, 0).transform_point(p), Some(Point3 { x: 2, y: -1, z: 3 }));
}

#[test]
fn transform_point_out_of_range_is_none() {
    let p = Point3 { x: i32::MAX, y: 0, z: 0 };
    assert_eq!(motion(0, 1, 0, 0).transform_point(p), None);
    assert_eq!(motion(2, 0, 0, 0).transform_point(Point3 { x: i32::MIN, y: 0, z: 0 }), None);
}

#[test]
fn shared_vertex_is_transformed_once() {
    let mut objects = Objects::new();
    let g = GlobalVertex::new(Point3 { x: 1, y: 1, z: 1 }).insert(&mut objects);
    let mut cache = TransformCache::new();
    let t = motion(0, 1, 2, 3);
    let a = transform_global_vertex(g, &t, &mut objects, &mut cache).unwrap();
    let b = transform_global_vertex(g, &t, &mut objects, &mut cache).unwrap();
    assert_eq!(a, b);
    assert_eq!(objects.global_vertices.len(), 2);
    assert_eq!(objects.global_vertices.get(a).position(), Point3 { x: 2, y: 3, z: 4 });
}

#[test]
fn transformed_cycle_keeps_shared_global_edge() {
    let mut objects = Objects::new();
    let ga = GlobalVertex::new(Point3 { x: 0, y: 0, z: 0 }).insert(&mut objects);
    let gb = GlobalVertex::new(Point3 { x: 4, y: 0, z: 0 }).insert(&mut objects);
    let sa = SurfaceVertex::new(Point2 { u: 0, v: 0 }, ga).insert(&mut objects);
    let sb = SurfaceVertex::new(Point2 { u: 4, v: 0 }, gb).insert(&mut objects);
    let edge = GlobalEdge::new((ga, gb)).insert(&mut objects);
    let forward = HalfEdge::new((0, 4), (sa, sb), edge).insert(&mut objects);
    let backward = HalfEdge::new((4, 0), (sb, sa), edge).insert(&mut objects);
    let cycle = Cycle::new(vec![forward, backward]).insert(&mut objects);

    let t = motion(1, 10, 0, 0);
    let mut cache = TransformCache::new();
    let moved = transform_cycle(cycle, &t, &mut objects, &mut cache).unwrap();

    let half_edges = objects.cycles.get(moved).half_edges.clone();
    assert_eq!(half_edges.len(), 2);
    let f = *objects.half_edges.get(half_edges[0]);
    let b = *objects.half_edges.get(half_edges[1]);
    assert_eq!(f.global_form, b.global_form);
    assert_ne!(f.global_form, edge);
    assert_eq!(f.start_vertex, b.end_vertex);
    assert_eq!((f.back, f.front), (0, 4));

    let new_edge = *objects.global_edges.get(f.global_form);
    let pa = objects.global_vertices.get(new_edge.vertex_a).position();
    let pb = objects.global_vertices.get(new_edge.vertex_b).position();
    assert_eq!(pa, t.transform_point(Point3 { x: 0, y: 0, z: 0 }).unwrap());
    assert_eq!(pb, t.transform_point(Point3 { x: 4, y: 0, z: 0 }).unwrap());
    assert_eq!(pb, Point3 { x: 10, y: 4, z: 0 });
    assert_eq!(objects.global_vertices.len(), 4);
    assert_eq!(objects.global_edges.len(), 2);

    let moved_sv = objects.surface_vertices.get(f.start_vertex);
    assert_eq!(moved_sv.position(), Point2 { u: 0, v: 0 });
}

#[test]
fn cycle_out_of_range_is_none() {
    let mut objects = Objects::new();
    let ga = GlobalVertex::new(Point3 { x: i32::MAX, y: 0, z: 0 }).insert(&mut objects);
    let sa = SurfaceVertex::new(Point2 { u: 0, v: 0 }, ga).insert(&mut objects);
    let edge = GlobalEdge::new((ga, ga)).insert(&mut objects);
    let he = HalfEdge::new((0, 1), (sa, sa), edge).insert(&mut objects);
    let cycle = Cycle::new(vec![he]).insert(&mut objects);
    let mut cache = TransformCache::new();
    assert_eq!(transform_cycle(cycle, &motion(0, 1, 0, 0), &mut objects, &mut cache), None);
}

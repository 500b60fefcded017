use fj_kernel::objects::{
    Cycle, GlobalEdge, GlobalVertex, HalfEdge, Insert, Objects, Point2, Point3, SurfaceVertex,
};
use fj_kernel::partial::{FullToPartialCache, PartialCycle, PartialObjects, PartialToFullCache};
use fj_kernel::storage::Handle;

/// Two half-edges a -> b -> a; the end of the first and the start of the
/// second share the global vertex at b.
fn two_half_edge_cycle(objects: &mut Objects) -> (Cycle, Handle) {
    let ga = GlobalVertex::new(Point3 { x: 0, y: 0, z: 0 }).insert(objects);
    let gb = GlobalVertex::new(Point3 { x: 5, y: 0, z: 0 }).insert(objects);
    let sa = SurfaceVertex::new(Point2 { u: 0, v: 0 }, ga).insert(objects);
    let sb1 = SurfaceVertex::new(Point2 { u: 5, v: 0 }, gb).insert(objects);
    let sb2 = SurfaceVertex::new(Point2 { u: 5, v: 0 }, gb).insert(objects);
    let edge = GlobalEdge::new((ga, gb)).insert(objects);
    let first = HalfEdge::new((0, 5), (sa, sb1), edge).insert(objects);
    let second = HalfEdge::new((5, 0), (sb2, sa), edge).insert(objects);
    (Cycle::new(vec![first, second]), gb)
}

#[test]
fn round_trip_keeps_shared_vertex() {
    let mut objects = Objects::new();
    let (cycle, _) = two_half_edge_cycle(&mut objects);

    let mut partials = PartialObjects::new();
    let mut to_partial = FullToPartialCache::new();
    let partial = PartialCycle::from_full(&cycle, &objects, &mut partials, &mut to_partial);
    assert_eq!(partials.global_vertices.len(), 2);
    assert_eq!(partials.surface_vertices.len(), 3);
    assert_eq!(partials.global_edges.len(), 1);
    assert_eq!(partials.half_edges.len(), 2);

    // Move the vertex at the origin.
    let first = partials.half_edges[partial.half_edges[0]];
    let start = partials.surface_vertices[first.start_vertex];
    partials.global_vertices[start.global_form].position = Point3 { x: 0, y: 1, z: 0 };

    let mut to_full = PartialToFullCache::new();
    let rebuilt = partial.build(&partials, &mut objects, &mut to_full);
    assert_eq!(rebuilt.half_edges.len(), 2);
    let f = *objects.half_edges.get(rebuilt.half_edges[0]);
    let s = *objects.half_edges.get(rebuilt.half_edges[1]);
    assert_ne!(rebuilt.half_edges[0], cycle.half_edges[0]);

    let end_of_first = objects.surface_vertices.get(f.end_vertex).global_form;
    let start_of_second = objects.surface_vertices.get(s.start_vertex).global_form;
    assert_eq!(end_of_first, start_of_second);
    assert_eq!(f.global_form, s.global_form);
    assert_eq!(f.start_vertex, s.end_vertex);

    let moved = objects.surface_vertices.get(f.start_vertex).global_form;
    assert_eq!(objects.global_vertices.get(moved).position(), Point3 { x: 0, y: 1, z: 0 });
    assert_eq!(objects.global_vertices.get(end_of_first).position(), Point3 { x: 5, y: 0, z: 0 });
    // 2 original + 2 rebuilt global vertices, not 3.
    assert_eq!(objects.global_vertices.len(), 4);
}

#[test]
fn building_twice_gives_distinct_identities() {
    let mut objects = Objects::new();
    let (cycle, _) = two_half_edge_cycle(&mut objects);
    let mut partials = PartialObjects::new();
    let mut to_partial = FullToPartialCache::new();
    let partial = PartialCycle::from_full(&cycle, &objects, &mut partials, &mut to_partial);
    let again = partial.clone();

    let a = partial.build(&partials, &mut objects, &mut PartialToFullCache::new());
    let b = again.build(&partials, &mut objects, &mut PartialToFullCache::new());
    assert_ne!(a.half_edges[0], b.half_edges[0]);
}

#[test]
fn copying_twice_reuses_the_copies() {
    let mut objects = Objects::new();
    let (cycle, _) = two_half_edge_cycle(&mut objects);
    let mut partials = PartialObjects::new();
    let mut to_partial = FullToPartialCache::new();
    let a = PartialCycle::from_full(&cycle, &objects, &mut partials, &mut to_partial);
    let b = PartialCycle::from_full(&cycle, &objects, &mut partials, &mut to_partial);
    assert_eq!(a.half_edges, b.half_edges);
    assert_eq!(partials.half_edges.len(), 2);
}

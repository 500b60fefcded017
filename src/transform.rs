//! Rigid motions of an object graph, with a cache per distinct object
//!
//! An object that is reachable from several parents is transformed once: the
//! [`TransformCache`] maps the identity of each object that was transformed to
//! the identity of its image, and every later visit reuses that image.

use std::collections::HashMap;

use vstd::prelude::*;

use crate::objects::{
    lemma_objects_extend_trans, objects_extend, Cycle, GlobalEdge, GlobalVertex, HalfEdge, Objects, Point3,
    SurfaceVertex,
};
use crate::storage::Handle;

verus! {

broadcast use vstd::std_specs::hash::group_hash_axioms;

/// A rigid motion: a rotation by a number of quarter turns about the z axis,
/// followed by a translation
#[derive(Clone, Copy, Debug, PartialEq, Eq, Structural)]
pub struct Transform {
    pub quarter_turns: u8,
    pub translation: Point3,
}

/// Whether an integer fits an `i32`
pub open spec fn fits(v: int) -> bool {
    i32::MIN <= v <= i32::MAX
}

/// The image of `p` under `t`, as unbounded integers
pub open spec fn spec_transform_point(t: Transform, p: Point3) -> (int, int, int) {
    let (x, y) = if t.quarter_turns % 4 == 0 {
        (p.x as int, p.y as int)
    } else if t.quarter_turns % 4 == 1 {
        (-p.y, p.x as int)
    } else if t.quarter_turns % 4 == 2 {
        (-p.x, -p.y)
    } else {
        (p.y as int, -p.x)
    };
    (x + t.translation.x, y + t.translation.y, p.z + t.translation.z)
}

/// Whether the image of `p` under `t` can be represented
pub open spec fn point_transformable(t: Transform, p: Point3) -> bool {
    let c = spec_transform_point(t, p);
    fits(c.0) && fits(c.1) && fits(c.2)
}

/// The image of `p` under `t`, where it can be represented
pub open spec fn transformed_point(t: Transform, p: Point3) -> Point3 {
    let c = spec_transform_point(t, p);
    Point3 { x: c.0 as i32, y: c.1 as i32, z: c.2 as i32 }
}

impl Transform {
    /// Apply the motion to a point; `None` where a coordinate of the image
    /// does not fit an `i32`
    pub fn transform_point(&self, p: Point3) -> (r: Option<Point3>)
        ensures
            r is Some <==> point_transformable(*self, p),
            r is Some ==> r->Some_0 == transformed_point(*self, p),
    {
        let x = p.x as i64;
        let y = p.y as i64;
        let turns = self.quarter_turns % 4;
        let (rx, ry): (i64, i64) = if turns == 0 {
            (x, y)
        } else if turns == 1 {
            (-y, x)
        } else if turns == 2 {
            (-x, -y)
        } else {
            (y, -x)
        };
        let tx = rx + self.translation.x as i64;
        let ty = ry + self.translation.y as i64;
        let tz = p.z as i64 + self.translation.z as i64;
        if tx < i32::MIN as i64 || tx > i32::MAX as i64 || ty < i32::MIN as i64 || ty > i32::MAX as i64
            || tz < i32::MIN as i64 || tz > i32::MAX as i64 {
            None
        } else {
            Some(Point3 { x: tx as i32, y: ty as i32, z: tz as i32 })
        }
    }
}

/// The images of the objects transformed so far, by the identity of their
/// source
pub struct TransformCache {
    pub global_vertices: HashMap<usize, Handle>,
    pub surface_vertices: HashMap<usize, Handle>,
    pub global_edges: HashMap<usize, Handle>,
    pub half_edges: HashMap<usize, Handle>,
}

/// Every entry of `a` stays in `b`, with the same value
pub open spec fn map_grows(a: Map<usize, Handle>, b: Map<usize, Handle>) -> bool {
    forall|k: usize| #[trigger] a.contains_key(k) ==> b.contains_key(k) && b[k] == a[k]
}

/// Every entry of `a` stays in `b`, with the same image
pub open spec fn cache_extends(a: TransformCache, b: TransformCache) -> bool {
    &&& map_grows(a.global_vertices@, b.global_vertices@)
    &&& map_grows(a.surface_vertices@, b.surface_vertices@)
    &&& map_grows(a.global_edges@, b.global_edges@)
    &&& map_grows(a.half_edges@, b.half_edges@)
}

/// The image of `h` in the map `m` of a cache
pub open spec fn image(m: Map<usize, Handle>, h: Handle) -> Handle {
    m[h.id]
}

/// Whether `dst` is the image of global vertex `src` under `t`
pub open spec fn global_vertex_image(o: Objects, t: Transform, src: Handle, dst: Handle) -> bool {
    &&& o.global_vertices.contains(src)
    &&& o.global_vertices.contains(dst)
    &&& point_transformable(t, o.global_vertices.spec_get(src).position)
    &&& o.global_vertices.spec_get(dst).position == transformed_point(t, o.global_vertices.spec_get(src).position)
}

/// Whether `dst` is the image of surface vertex `src`, its global form mapped
/// through the cache
pub open spec fn surface_vertex_image(o: Objects, c: TransformCache, src: Handle, dst: Handle) -> bool {
    &&& o.surface_vertices.contains(src)
    &&& o.surface_vertices.contains(dst)
    &&& o.surface_vertices.spec_get(dst).position == o.surface_vertices.spec_get(src).position
    &&& c.global_vertices@.contains_key(o.surface_vertices.spec_get(src).global_form.id)
    &&& o.surface_vertices.spec_get(dst).global_form == image(
        c.global_vertices@,
        o.surface_vertices.spec_get(src).global_form,
    )
}

/// Whether `dst` is the image of global edge `src`, its vertices mapped
/// through the cache
pub open spec fn global_edge_image(o: Objects, c: TransformCache, src: Handle, dst: Handle) -> bool {
    &&& o.global_edges.contains(src)
    &&& o.global_edges.contains(dst)
    &&& c.global_vertices@.contains_key(o.global_edges.spec_get(src).vertex_a.id)
    &&& c.global_vertices@.contains_key(o.global_edges.spec_get(src).vertex_b.id)
    &&& o.global_edges.spec_get(dst).vertex_a == image(c.global_vertices@, o.global_edges.spec_get(src).vertex_a)
    &&& o.global_edges.spec_get(dst).vertex_b == image(c.global_vertices@, o.global_edges.spec_get(src).vertex_b)
}

/// Whether `dst` is the image of half-edge `src`, its parts mapped through
/// the cache
pub open spec fn half_edge_image(o: Objects, c: TransformCache, src: Handle, dst: Handle) -> bool {
    &&& o.half_edges.contains(src)
    &&& o.half_edges.contains(dst)
    &&& {
        let s = o.half_edges.spec_get(src);
        let d = o.half_edges.spec_get(dst);
        &&& d.back == s.back
        &&& d.front == s.front
        &&& c.surface_vertices@.contains_key(s.start_vertex.id)
        &&& c.surface_vertices@.contains_key(s.end_vertex.id)
        &&& c.global_edges@.contains_key(s.global_form.id)
        &&& d.start_vertex == image(c.surface_vertices@, s.start_vertex)
        &&& d.end_vertex == image(c.surface_vertices@, s.end_vertex)
        &&& d.global_form == image(c.global_edges@, s.global_form)
    }
}

/// Every entry of the cache names a source object and its image under `t`
pub open spec fn cache_valid(o: Objects, t: Transform, c: TransformCache) -> bool {
    &&& forall|k: usize| #[trigger]
        c.global_vertices@.contains_key(k) ==> global_vertex_image(o, t, Handle { id: k }, c.global_vertices@[k])
    &&& forall|k: usize| #[trigger]
        c.surface_vertices@.contains_key(k) ==> surface_vertex_image(o, c, Handle { id: k }, c.surface_vertices@[k])
    &&& forall|k: usize| #[trigger]
        c.global_edges@.contains_key(k) ==> global_edge_image(o, c, Handle { id: k }, c.global_edges@[k])
    &&& forall|k: usize| #[trigger]
        c.half_edges@.contains_key(k) ==> half_edge_image(o, c, Handle { id: k }, c.half_edges@[k])
}

/// The global forms of a surface vertex's parts are in their stores
pub open spec fn resolves_surface_vertex(o: Objects, h: Handle) -> bool {
    &&& o.surface_vertices.contains(h)
    &&& o.global_vertices.contains(o.surface_vertices.spec_get(h).global_form)
}

/// The vertices of a global edge are in their store
pub open spec fn resolves_global_edge(o: Objects, h: Handle) -> bool {
    &&& o.global_edges.contains(h)
    &&& o.global_vertices.contains(o.global_edges.spec_get(h).vertex_a)
    &&& o.global_vertices.contains(o.global_edges.spec_get(h).vertex_b)
}

/// Every object reachable from a half-edge is in its store
pub open spec fn resolves_half_edge_deep(o: Objects, h: Handle) -> bool {
    &&& o.half_edges.contains(h)
    &&& resolves_surface_vertex(o, o.half_edges.spec_get(h).start_vertex)
    &&& resolves_surface_vertex(o, o.half_edges.spec_get(h).end_vertex)
    &&& resolves_global_edge(o, o.half_edges.spec_get(h).global_form)
}

/// Every object reachable from a cycle is in its store
pub open spec fn resolves_cycle(o: Objects, h: Handle) -> bool {
    &&& o.cycles.contains(h)
    &&& forall|i: int|
        0 <= i < o.cycles.spec_get(h).half_edges@.len() ==> resolves_half_edge_deep(
            o,
            #[trigger] o.cycles.spec_get(h).half_edges@[i],
        )
}

/// Whether the image of global vertex `h` can be represented
pub open spec fn global_vertex_transformable(o: Objects, t: Transform, h: Handle) -> bool {
    point_transformable(t, o.global_vertices.spec_get(h).position)
}

pub open spec fn surface_vertex_transformable(o: Objects, t: Transform, h: Handle) -> bool {
    global_vertex_transformable(o, t, o.surface_vertices.spec_get(h).global_form)
}

pub open spec fn global_edge_transformable(o: Objects, t: Transform, h: Handle) -> bool {
    &&& global_vertex_transformable(o, t, o.global_edges.spec_get(h).vertex_a)
    &&& global_vertex_transformable(o, t, o.global_edges.spec_get(h).vertex_b)
}

pub open spec fn half_edge_transformable(o: Objects, t: Transform, h: Handle) -> bool {
    &&& surface_vertex_transformable(o, t, o.half_edges.spec_get(h).start_vertex)
    &&& surface_vertex_transformable(o, t, o.half_edges.spec_get(h).end_vertex)
    &&& global_edge_transformable(o, t, o.half_edges.spec_get(h).global_form)
}

pub open spec fn cycle_transformable(o: Objects, t: Transform, h: Handle) -> bool {
    forall|i: int|
        0 <= i < o.cycles.spec_get(h).half_edges@.len() ==> half_edge_transformable(
            o,
            t,
            #[trigger] o.cycles.spec_get(h).half_edges@[i],
        )
}

/// Growing the stores keeps every cache entry valid
pub proof fn lemma_cache_valid_mono(o1: Objects, o2: Objects, t: Transform, c: TransformCache)
    requires
        cache_valid(o1, t, c),
        objects_extend(o1, o2),
    ensures
        cache_valid(o2, t, c),
{
    assert forall|k: usize| #[trigger] c.global_vertices@.contains_key(k) implies global_vertex_image(
        o2,
        t,
        Handle { id: k },
        c.global_vertices@[k],
    ) by {
        assert(o1.global_vertices@[k as int] is Some);
        assert(o1.global_vertices@[c.global_vertices@[k].id as int] is Some);
    }
    assert forall|k: usize| #[trigger] c.surface_vertices@.contains_key(k) implies surface_vertex_image(
        o2,
        c,
        Handle { id: k },
        c.surface_vertices@[k],
    ) by {
        assert(o1.surface_vertices@[k as int] is Some);
        assert(o1.surface_vertices@[c.surface_vertices@[k].id as int] is Some);
    }
    assert forall|k: usize| #[trigger] c.global_edges@.contains_key(k) implies global_edge_image(
        o2,
        c,
        Handle { id: k },
        c.global_edges@[k],
    ) by {
        assert(o1.global_edges@[k as int] is Some);
        assert(o1.global_edges@[c.global_edges@[k].id as int] is Some);
    }
    assert forall|k: usize| #[trigger] c.half_edges@.contains_key(k) implies half_edge_image(
        o2,
        c,
        Handle { id: k },
        c.half_edges@[k],
    ) by {
        assert(o1.half_edges@[k as int] is Some);
        assert(o1.half_edges@[c.half_edges@[k].id as int] is Some);
    }
}

/// Adding entries to the cache keeps the older entries valid, where the
/// new entries are valid themselves
pub proof fn lemma_cache_valid_grow(o: Objects, t: Transform, c1: TransformCache, c2: TransformCache)
    requires
        cache_valid(o, t, c1),
        cache_extends(c1, c2),
        forall|k: usize| #[trigger]
            c2.global_vertices@.contains_key(k) && !c1.global_vertices@.contains_key(k) ==> global_vertex_image(
                o,
                t,
                Handle { id: k },
                c2.global_vertices@[k],
            ),
        forall|k: usize| #[trigger]
            c2.surface_vertices@.contains_key(k) && !c1.surface_vertices@.contains_key(k) ==> surface_vertex_image(
                o,
                c2,
                Handle { id: k },
                c2.surface_vertices@[k],
            ),
        forall|k: usize| #[trigger]
            c2.global_edges@.contains_key(k) && !c1.global_edges@.contains_key(k) ==> global_edge_image(
                o,
                c2,
                Handle { id: k },
                c2.global_edges@[k],
            ),
        forall|k: usize| #[trigger]
            c2.half_edges@.contains_key(k) && !c1.half_edges@.contains_key(k) ==> half_edge_image(
                o,
                c2,
                Handle { id: k },
                c2.half_edges@[k],
            ),
    ensures
        cache_valid(o, t, c2),
{
    assert forall|k: usize| #[trigger] c2.surface_vertices@.contains_key(k) implies surface_vertex_image(
        o,
        c2,
        Handle { id: k },
        c2.surface_vertices@[k],
    ) by {
        if c1.surface_vertices@.contains_key(k) {
            let g = o.surface_vertices.spec_get(Handle { id: k }).global_form.id;
            assert(c1.global_vertices@.contains_key(g));
        }
    }
    assert forall|k: usize| #[trigger] c2.global_edges@.contains_key(k) implies global_edge_image(
        o,
        c2,
        Handle { id: k },
        c2.global_edges@[k],
    ) by {
        if c1.global_edges@.contains_key(k) {
            let e = o.global_edges.spec_get(Handle { id: k });
            assert(c1.global_vertices@.contains_key(e.vertex_a.id));
            assert(c1.global_vertices@.contains_key(e.vertex_b.id));
            assert(c2.global_edges@[k] == c1.global_edges@[k]);
            assert(c2.global_vertices@[e.vertex_a.id] == c1.global_vertices@[e.vertex_a.id]);
            assert(c2.global_vertices@[e.vertex_b.id] == c1.global_vertices@[e.vertex_b.id]);
        }
    }
    assert forall|k: usize| #[trigger] c2.half_edges@.contains_key(k) implies half_edge_image(
        o,
        c2,
        Handle { id: k },
        c2.half_edges@[k],
    ) by {
        if c1.half_edges@.contains_key(k) {
            let s = o.half_edges.spec_get(Handle { id: k });
            assert(c1.surface_vertices@.contains_key(s.start_vertex.id));
            assert(c1.surface_vertices@.contains_key(s.end_vertex.id));
            assert(c1.global_edges@.contains_key(s.global_form.id));
            assert(c2.half_edges@[k] == c1.half_edges@[k]);
            assert(c2.surface_vertices@[s.start_vertex.id] == c1.surface_vertices@[s.start_vertex.id]);
            assert(c2.surface_vertices@[s.end_vertex.id] == c1.surface_vertices@[s.end_vertex.id]);
            assert(c2.global_edges@[s.global_form.id] == c1.global_edges@[s.global_form.id]);
        }
    }
}

impl TransformCache {
    /// An empty cache, for one top-level transform
    pub fn new() -> (r: Self)
        ensures
            r.global_vertices@ == Map::<usize, Handle>::empty(),
            r.surface_vertices@ == Map::<usize, Handle>::empty(),
            r.global_edges@ == Map::<usize, Handle>::empty(),
            r.half_edges@ == Map::<usize, Handle>::empty(),
    {
        TransformCache {
            global_vertices: HashMap::new(),
            surface_vertices: HashMap::new(),
            global_edges: HashMap::new(),
            half_edges: HashMap::new(),
        }
    }
}

impl GlobalVertex {
    /// The vertex moved by `transform`; `None` where its image cannot be
    /// represented
    pub fn transform_with_cache(self, transform: &Transform) -> (r: Option<Self>)
        ensures
            r is Some <==> point_transformable(*transform, self.position),
            r is Some ==> r->Some_0.position == transformed_point(*transform, self.position),
    {
        match transform.transform_point(self.position) {
            Some(p) => Some(GlobalVertex::new(p)),
            None => None,
        }
    }
}

impl SurfaceVertex {
    /// The vertex with its global form moved by `transform`
    ///
    /// The surface position stays as it is: it is defined relative to the
    /// surface, which is transformed on its own.
    pub fn transform_with_cache(
        self,
        transform: &Transform,
        objects: &mut Objects,
        cache: &mut TransformCache,
    ) -> (r: Option<Self>)
        requires
            old(objects).global_vertices.contains(self.global_form),
            cache_valid(*old(objects), *transform, *old(cache)),
        ensures
            objects_extend(*old(objects), *final(objects)),
            cache_extends(*old(cache), *final(cache)),
            cache_valid(*final(objects), *transform, *final(cache)),
            final(cache).surface_vertices@ == old(cache).surface_vertices@,
            final(cache).global_edges@ == old(cache).global_edges@,
            final(cache).half_edges@ == old(cache).half_edges@,
            r is Some <==> global_vertex_transformable(*old(objects), *transform, self.global_form),
            r is Some ==> {
                &&& r->Some_0.position == self.position
                &&& final(cache).global_vertices@.contains_key(self.global_form.id)
                &&& r->Some_0.global_form == image(final(cache).global_vertices@, self.global_form)
            },
    {
        let position = self.position();
        match transform_global_vertex(self.global_form, transform, objects, cache) {
            Some(global_form) => Some(SurfaceVertex::new(position, global_form)),
            None => None,
        }
    }
}

/// Transform the global vertex `h`, or reuse its image from the cache
pub fn transform_global_vertex(
    h: Handle,
    transform: &Transform,
    objects: &mut Objects,
    cache: &mut TransformCache,
) -> (r: Option<Handle>)
    requires
        old(objects).global_vertices.contains(h),
        cache_valid(*old(objects), *transform, *old(cache)),
    ensures
        objects_extend(*old(objects), *final(objects)),
        cache_extends(*old(cache), *final(cache)),
        cache_valid(*final(objects), *transform, *final(cache)),
        final(cache).surface_vertices@ == old(cache).surface_vertices@,
        final(cache).global_edges@ == old(cache).global_edges@,
        final(cache).half_edges@ == old(cache).half_edges@,
        r is Some <==> global_vertex_transformable(*old(objects), *transform, h),
        r is Some ==> final(cache).global_vertices@.contains_key(h.id) && final(cache).global_vertices@[h.id]
            == r->Some_0,
{
    match cache.global_vertices.get(&h.id) {
        Some(d) => {
            assert(global_vertex_image(*objects, *transform, Handle { id: h.id }, *d));
            return Some(*d);
        },
        None => {},
    }
    let vertex: GlobalVertex = *objects.global_vertices.get(h);
    match vertex.transform_with_cache(transform) {
        None => None,
        Some(moved) => {
            let ghost o0 = *objects;
            let ghost c0 = *cache;
            let d = objects.global_vertices.push(moved);
            proof {
                lemma_cache_valid_mono(o0, *objects, *transform, c0);
            }
            cache.global_vertices.insert(h.id, d);
            proof {
                assert(objects.global_vertices.spec_get(h) == vertex);
                lemma_cache_valid_grow(*objects, *transform, c0, *cache);
            }
            Some(d)
        },
    }
}

/// Transform the surface vertex `h`, or reuse its image from the cache
pub fn transform_surface_vertex(
    h: Handle,
    transform: &Transform,
    objects: &mut Objects,
    cache: &mut TransformCache,
) -> (r: Option<Handle>)
    requires
        resolves_surface_vertex(*old(objects), h),
        cache_valid(*old(objects), *transform, *old(cache)),
    ensures
        objects_extend(*old(objects), *final(objects)),
        cache_extends(*old(cache), *final(cache)),
        cache_valid(*final(objects), *transform, *final(cache)),
        final(cache).global_edges@ == old(cache).global_edges@,
        final(cache).half_edges@ == old(cache).half_edges@,
        r is Some <==> surface_vertex_transformable(*old(objects), *transform, h),
        r is Some ==> final(cache).surface_vertices@.contains_key(h.id) && final(cache).surface_vertices@[h.id]
            == r->Some_0,
{
    match cache.surface_vertices.get(&h.id) {
        Some(d) => {
            assert(surface_vertex_image(*objects, *cache, Handle { id: h.id }, *d));
            let ghost g = objects.surface_vertices.spec_get(h).global_form;
            assert(global_vertex_image(*objects, *transform, Handle { id: g.id }, cache.global_vertices@[g.id]));
            return Some(*d);
        },
        None => {},
    }
    let vertex: SurfaceVertex = *objects.surface_vertices.get(h);
    match vertex.transform_with_cache(transform, objects, cache) {
        None => None,
        Some(moved) => {
            let ghost o1 = *objects;
            let ghost c1 = *cache;
            let d = objects.surface_vertices.push(moved);
            proof {
                lemma_cache_valid_mono(o1, *objects, *transform, c1);
            }
            cache.surface_vertices.insert(h.id, d);
            proof {
                assert(objects.surface_vertices.spec_get(h) == vertex);
                lemma_cache_valid_grow(*objects, *transform, c1, *cache);
            }
            Some(d)
        },
    }
}

/// Transform the global edge `h`, or reuse its image from the cache
pub fn transform_global_edge(
    h: Handle,
    transform: &Transform,
    objects: &mut Objects,
    cache: &mut TransformCache,
) -> (r: Option<Handle>)
    requires
        resolves_global_edge(*old(objects), h),
        cache_valid(*old(objects), *transform, *old(cache)),
    ensures
        objects_extend(*old(objects), *final(objects)),
        cache_extends(*old(cache), *final(cache)),
        cache_valid(*final(objects), *transform, *final(cache)),
        final(cache).surface_vertices@ == old(cache).surface_vertices@,
        final(cache).half_edges@ == old(cache).half_edges@,
        r is Some <==> global_edge_transformable(*old(objects), *transform, h),
        r is Some ==> final(cache).global_edges@.contains_key(h.id) && final(cache).global_edges@[h.id]
            == r->Some_0,
{
    match cache.global_edges.get(&h.id) {
        Some(d) => {
            assert(global_edge_image(*objects, *cache, Handle { id: h.id }, *d));
            let ghost e = objects.global_edges.spec_get(h);
            assert(global_vertex_image(*objects, *transform, Handle { id: e.vertex_a.id }, cache.global_vertices@[e.vertex_a.id]));
            assert(global_vertex_image(*objects, *transform, Handle { id: e.vertex_b.id }, cache.global_vertices@[e.vertex_b.id]));
            return Some(*d);
        },
        None => {},
    }
    let edge: GlobalEdge = *objects.global_edges.get(h);
    let ghost o0 = *objects;
    let a = match transform_global_vertex(edge.vertex_a, transform, objects, cache) {
        Some(a) => a,
        None => return None,
    };
    let ghost o1 = *objects;
    let ghost c1 = *cache;
    let b = match transform_global_vertex(edge.vertex_b, transform, objects, cache) {
        Some(b) => b,
        None => {
            assert(o1.global_vertices.spec_get(edge.vertex_b) == o0.global_vertices.spec_get(edge.vertex_b));
            return None;
        },
    };
    assert(o1.global_vertices.spec_get(edge.vertex_b) == o0.global_vertices.spec_get(edge.vertex_b));
    let ghost o2 = *objects;
    let ghost c2 = *cache;
    let d = objects.global_edges.push(GlobalEdge::new((a, b)));
    proof {
        lemma_cache_valid_mono(o2, *objects, *transform, c2);
    }
    cache.global_edges.insert(h.id, d);
    proof {
        assert(objects.global_edges.spec_get(h) == edge);
        assert(c1.global_vertices@.contains_key(edge.vertex_a.id));
        lemma_cache_valid_grow(*objects, *transform, c2, *cache);
    }
    Some(d)
}

/// Transform the half-edge `h`, or reuse its image from the cache
pub fn transform_half_edge(
    h: Handle,
    transform: &Transform,
    objects: &mut Objects,
    cache: &mut TransformCache,
) -> (r: Option<Handle>)
    requires
        resolves_half_edge_deep(*old(objects), h),
        cache_valid(*old(objects), *transform, *old(cache)),
    ensures
        objects_extend(*old(objects), *final(objects)),
        cache_extends(*old(cache), *final(cache)),
        cache_valid(*final(objects), *transform, *final(cache)),
        r is Some <==> half_edge_transformable(*old(objects), *transform, h),
        r is Some ==> final(cache).half_edges@.contains_key(h.id) && final(cache).half_edges@[h.id]
            == r->Some_0,
{
    match cache.half_edges.get(&h.id) {
        Some(d) => {
            assert(half_edge_image(*objects, *cache, Handle { id: h.id }, *d));
            let ghost s = objects.half_edges.spec_get(h);
            let ghost sa = objects.surface_vertices.spec_get(s.start_vertex).global_form;
            let ghost sb = objects.surface_vertices.spec_get(s.end_vertex).global_form;
            let ghost e = objects.global_edges.spec_get(s.global_form);
            assert(surface_vertex_image(*objects, *cache, Handle { id: s.start_vertex.id }, cache.surface_vertices@[s.start_vertex.id]));
            assert(surface_vertex_image(*objects, *cache, Handle { id: s.end_vertex.id }, cache.surface_vertices@[s.end_vertex.id]));
            assert(global_edge_image(*objects, *cache, Handle { id: s.global_form.id }, cache.global_edges@[s.global_form.id]));
            assert(global_vertex_image(*objects, *transform, Handle { id: sa.id }, cache.global_vertices@[sa.id]));
            assert(global_vertex_image(*objects, *transform, Handle { id: sb.id }, cache.global_vertices@[sb.id]));
            assert(global_vertex_image(*objects, *transform, Handle { id: e.vertex_a.id }, cache.global_vertices@[e.vertex_a.id]));
            assert(global_vertex_image(*objects, *transform, Handle { id: e.vertex_b.id }, cache.global_vertices@[e.vertex_b.id]));
            return Some(*d);
        },
        None => {},
    }
    let half_edge: HalfEdge = *objects.half_edges.get(h);
    let ghost o0 = *objects;
    let start = match transform_surface_vertex(half_edge.start_vertex, transform, objects, cache) {
        Some(v) => v,
        None => return None,
    };
    let ghost o1 = *objects;
    let ghost c1 = *cache;
    assert(o1.surface_vertices.spec_get(half_edge.end_vertex) == o0.surface_vertices.spec_get(half_edge.end_vertex));
    assert(o1.global_edges.spec_get(half_edge.global_form) == o0.global_edges.spec_get(half_edge.global_form));
    let end = match transform_surface_vertex(half_edge.end_vertex, transform, objects, cache) {
        Some(v) => v,
        None => return None,
    };
    let ghost o2 = *objects;
    let ghost c2 = *cache;
    assert(o2.global_edges.spec_get(half_edge.global_form) == o0.global_edges.spec_get(half_edge.global_form));
    let global_form = match transform_global_edge(half_edge.global_form, transform, objects, cache) {
        Some(e) => e,
        None => return None,
    };
    let ghost o3 = *objects;
    let ghost c3 = *cache;
    let d = objects.half_edges.push(
        HalfEdge::new((half_edge.back, half_edge.front), (start, end), global_form),
    );
    proof {
        lemma_cache_valid_mono(o3, *objects, *transform, c3);
    }
    cache.half_edges.insert(h.id, d);
    proof {
        assert(objects.half_edges.spec_get(h) == half_edge);
        assert(c1.surface_vertices@.contains_key(half_edge.start_vertex.id));
        assert(c2.surface_vertices@.contains_key(half_edge.end_vertex.id));
        lemma_cache_valid_grow(*objects, *transform, c3, *cache);
    }
    Some(d)
}

/// Transform the cycle `h`: each of its half-edges, through the cache
pub fn transform_cycle(
    h: Handle,
    transform: &Transform,
    objects: &mut Objects,
    cache: &mut TransformCache,
) -> (r: Option<Handle>)
    requires
        resolves_cycle(*old(objects), h),
        cache_valid(*old(objects), *transform, *old(cache)),
    ensures
        objects_extend(*old(objects), *final(objects)),
        cache_extends(*old(cache), *final(cache)),
        cache_valid(*final(objects), *transform, *final(cache)),
        r is Some <==> cycle_transformable(*old(objects), *transform, h),
        r is Some ==> {
            let src = old(objects).cycles.spec_get(h).half_edges@;
            let dst = final(objects).cycles.spec_get(r->Some_0).half_edges@;
            &&& final(objects).cycles.contains(r->Some_0)
            &&& dst.len() == src.len()
            &&& forall|i: int|
                0 <= i < src.len() ==> final(cache).half_edges@.contains_key(#[trigger] src[i].id)
                    && dst[i] == final(cache).half_edges@[src[i].id]
        },
{
    let n = objects.cycles.get(h).half_edges.len();
    let ghost o0 = *objects;
    let ghost c0 = *cache;
    let ghost src = o0.cycles.spec_get(h).half_edges@;
    let mut images: Vec<Handle> = Vec::new();
    let mut i: usize = 0;
    while i < n
        invariant
            n == src.len(),
            i <= n,
            o0 == *old(objects),
            c0 == *old(cache),
            src == o0.cycles.spec_get(h).half_edges@,
            resolves_cycle(o0, h),
            objects_extend(o0, *objects),
            cache_extends(c0, *cache),
            cache_valid(*objects, *transform, *cache),
            images@.len() == i,
            forall|j: int| 0 <= j < i ==> half_edge_transformable(o0, *transform, #[trigger] src[j]),
            forall|j: int|
                0 <= j < i ==> cache.half_edges@.contains_key(#[trigger] src[j].id) && images@[j]
                    == cache.half_edges@[src[j].id],
        decreases n - i,
    {
        let half_edge = objects.cycles.get(h).half_edges[i];
        assert(half_edge == src[i as int]);
        let ghost o1 = *objects;
        assert(resolves_half_edge_deep(o0, src[i as int]));
        let r = transform_half_edge(half_edge, transform, objects, cache);
        proof {
            lemma_objects_extend_trans(o0, o1, *objects);
        }
        match r {
            Some(d) => images.push(d),
            None => return None,
        }
        i = i + 1;
    }
    let ghost o1 = *objects;
    let ghost c1 = *cache;
    let d = objects.cycles.push(Cycle::new(images));
    proof {
        lemma_cache_valid_mono(o1, *objects, *transform, c1);
    }
    Some(d)
}

/// Half-edges that share a global edge before a transform share one after
/// it: the image of that edge, whose vertices lie where the transform moves
/// the vertices of the source edge.
pub proof fn lemma_transform_keeps_shared_edge(o: Objects, t: Transform, c: TransformCache, a: Handle, b: Handle)
    requires
        cache_valid(o, t, c),
        c.half_edges@.contains_key(a.id),
        c.half_edges@.contains_key(b.id),
        o.half_edges.contains(a),
        o.half_edges.contains(b),
        o.half_edges.spec_get(a).global_form == o.half_edges.spec_get(b).global_form,
    ensures
        ({
            let src_edge = o.global_edges.spec_get(o.half_edges.spec_get(a).global_form);
            let shared = o.half_edges.spec_get(image(c.half_edges@, a)).global_form;
            let dst_edge = o.global_edges.spec_get(shared);
            &&& shared == o.half_edges.spec_get(image(c.half_edges@, b)).global_form
            &&& shared == image(c.global_edges@, o.half_edges.spec_get(a).global_form)
            &&& o.global_vertices.spec_get(dst_edge.vertex_a).position == transformed_point(
                t,
                o.global_vertices.spec_get(src_edge.vertex_a).position,
            )
            &&& o.global_vertices.spec_get(dst_edge.vertex_b).position == transformed_point(
                t,
                o.global_vertices.spec_get(src_edge.vertex_b).position,
            )
        }),
{
    assert(half_edge_image(o, c, Handle { id: a.id }, c.half_edges@[a.id]));
    assert(half_edge_image(o, c, Handle { id: b.id }, c.half_edges@[b.id]));
    let g = o.half_edges.spec_get(a).global_form;
    assert(global_edge_image(o, c, Handle { id: g.id }, c.global_edges@[g.id]));
    let e = o.global_edges.spec_get(g);
    assert(global_vertex_image(o, t, Handle { id: e.vertex_a.id }, c.global_vertices@[e.vertex_a.id]));
    assert(global_vertex_image(o, t, Handle { id: e.vertex_b.id }, c.global_vertices@[e.vertex_b.id]));
}

} // verus!

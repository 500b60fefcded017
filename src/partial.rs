//! Partial objects: a mutable staging copy of an object graph
//!
//! [`PartialCycle::from_full`] copies the graph behind a cycle into a
//! [`PartialObjects`] arena, where objects refer to each other by index. An
//! object that is reachable on several paths is copied once: the
//! [`FullToPartialCache`] remembers the index of each copy. After the copy has
//! been edited, [`PartialCycle::build`] inserts it into the stores again,
//! children before parents, and the [`PartialToFullCache`] makes sure that
//! each partial object is inserted once.

use std::collections::HashMap;

use vstd::prelude::*;

use crate::objects::{
    lemma_objects_extend_trans, objects_extend, Cycle, GlobalEdge, GlobalVertex, HalfEdge, Objects, Point2,
    Point3, SurfaceVertex,
};
use crate::storage::Handle;
use crate::transform::{
    map_grows, resolves_global_edge, resolves_half_edge_deep, resolves_surface_vertex,
};

verus! {

broadcast use vstd::std_specs::hash::group_hash_axioms;

/// A partial [`GlobalVertex`]
#[derive(Clone, Copy, Debug, PartialEq, Eq, Structural)]
pub struct PartialGlobalVertex {
    pub position: Point3,
}

/// A partial [`SurfaceVertex`]; `global_form` is an index into the arena's
/// global vertices
#[derive(Clone, Copy, Debug, PartialEq, Eq, Structural)]
pub struct PartialSurfaceVertex {
    pub position: Point2,
    pub global_form: usize,
}

/// A partial [`GlobalEdge`]; its vertices are indices into the arena's global
/// vertices
#[derive(Clone, Copy, Debug, PartialEq, Eq, Structural)]
pub struct PartialGlobalEdge {
    pub vertex_a: usize,
    pub vertex_b: usize,
}

/// A partial [`HalfEdge`]; its vertices and its global form are indices into
/// the arena
#[derive(Clone, Copy, Debug, PartialEq, Eq, Structural)]
pub struct PartialHalfEdge {
    pub back: i32,
    pub front: i32,
    pub start_vertex: usize,
    pub end_vertex: usize,
    pub global_form: usize,
}

/// A partial [`Cycle`]
#[derive(Clone, Debug)]
pub struct PartialCycle {
    /// The half-edges that make up the cycle, as indices into the arena
    pub half_edges: Vec<usize>,
}

/// The arena of partial objects
pub struct PartialObjects {
    pub global_vertices: Vec<PartialGlobalVertex>,
    pub surface_vertices: Vec<PartialSurfaceVertex>,
    pub global_edges: Vec<PartialGlobalEdge>,
    pub half_edges: Vec<PartialHalfEdge>,
}

impl PartialObjects {
    /// An empty arena
    pub fn new() -> (r: Self)
        ensures
            r.wf(),
            r.global_vertices@.len() == 0,
            r.surface_vertices@.len() == 0,
            r.global_edges@.len() == 0,
            r.half_edges@.len() == 0,
    {
        PartialObjects {
            global_vertices: Vec::new(),
            surface_vertices: Vec::new(),
            global_edges: Vec::new(),
            half_edges: Vec::new(),
        }
    }

    /// Every index in the arena names an object of the arena
    pub open spec fn wf(&self) -> bool {
        &&& forall|i: int|
            0 <= i < self.surface_vertices@.len() ==> (#[trigger] self.surface_vertices@[i]).global_form
                < self.global_vertices@.len()
        &&& forall|i: int|
            0 <= i < self.global_edges@.len() ==> (#[trigger] self.global_edges@[i]).vertex_a
                < self.global_vertices@.len() && self.global_edges@[i].vertex_b < self.global_vertices@.len()
        &&& forall|i: int|
            0 <= i < self.half_edges@.len() ==> {
                &&& (#[trigger] self.half_edges@[i]).start_vertex < self.surface_vertices@.len()
                &&& self.half_edges@[i].end_vertex < self.surface_vertices@.len()
                &&& self.half_edges@[i].global_form < self.global_edges@.len()
            }
    }
}

/// `b` holds every object of `a` at the same index, and maybe more
pub open spec fn arena_grows(a: PartialObjects, b: PartialObjects) -> bool {
    &&& a.global_vertices@.len() <= b.global_vertices@.len()
    &&& a.surface_vertices@.len() <= b.surface_vertices@.len()
    &&& a.global_edges@.len() <= b.global_edges@.len()
    &&& a.half_edges@.len() <= b.half_edges@.len()
    &&& a.global_vertices@ == b.global_vertices@.subrange(0, a.global_vertices@.len() as int)
    &&& a.surface_vertices@ == b.surface_vertices@.subrange(0, a.surface_vertices@.len() as int)
    &&& a.global_edges@ == b.global_edges@.subrange(0, a.global_edges@.len() as int)
    &&& a.half_edges@ == b.half_edges@.subrange(0, a.half_edges@.len() as int)
}

/// Every arena grows into itself
pub proof fn lemma_arena_grows_refl(a: PartialObjects)
    ensures
        arena_grows(a, a),
{
    assert(a.global_vertices@ =~= a.global_vertices@.subrange(0, a.global_vertices@.len() as int));
    assert(a.surface_vertices@ =~= a.surface_vertices@.subrange(0, a.surface_vertices@.len() as int));
    assert(a.global_edges@ =~= a.global_edges@.subrange(0, a.global_edges@.len() as int));
    assert(a.half_edges@ =~= a.half_edges@.subrange(0, a.half_edges@.len() as int));
}

/// Growing an arena twice is growing it once
pub proof fn lemma_arena_grows_trans(a: PartialObjects, b: PartialObjects, c: PartialObjects)
    requires
        arena_grows(a, b),
        arena_grows(b, c),
    ensures
        arena_grows(a, c),
{
    assert(a.global_vertices@ =~= c.global_vertices@.subrange(0, a.global_vertices@.len() as int));
    assert(a.surface_vertices@ =~= c.surface_vertices@.subrange(0, a.surface_vertices@.len() as int));
    assert(a.global_edges@ =~= c.global_edges@.subrange(0, a.global_edges@.len() as int));
    assert(a.half_edges@ =~= c.half_edges@.subrange(0, a.half_edges@.len() as int));
}

/// The index of the partial copy of each full object, by the identity of the
/// full object
pub struct FullToPartialCache {
    pub global_vertices: HashMap<usize, usize>,
    pub surface_vertices: HashMap<usize, usize>,
    pub global_edges: HashMap<usize, usize>,
    pub half_edges: HashMap<usize, usize>,
}

impl FullToPartialCache {
    pub fn new() -> (r: Self)
        ensures
            r.global_vertices@ == Map::<usize, usize>::empty(),
            r.surface_vertices@ == Map::<usize, usize>::empty(),
            r.global_edges@ == Map::<usize, usize>::empty(),
            r.half_edges@ == Map::<usize, usize>::empty(),
    {
        FullToPartialCache {
            global_vertices: HashMap::new(),
            surface_vertices: HashMap::new(),
            global_edges: HashMap::new(),
            half_edges: HashMap::new(),
        }
    }
}

/// Every entry of `a` stays in `b`, with the same value
pub open spec fn index_map_grows(a: Map<usize, usize>, b: Map<usize, usize>) -> bool {
    forall|k: usize| #[trigger] a.contains_key(k) ==> b.contains_key(k) && b[k] == a[k]
}

pub open spec fn full_to_partial_extends(a: FullToPartialCache, b: FullToPartialCache) -> bool {
    &&& index_map_grows(a.global_vertices@, b.global_vertices@)
    &&& index_map_grows(a.surface_vertices@, b.surface_vertices@)
    &&& index_map_grows(a.global_edges@, b.global_edges@)
    &&& index_map_grows(a.half_edges@, b.half_edges@)
}

/// Every entry of the cache maps a full object to a partial copy of it,
/// whose references are the copies of the full object's references
pub open spec fn full_to_partial_valid(o: Objects, p: PartialObjects, c: FullToPartialCache) -> bool {
    &&& forall|k: usize| #[trigger]
        c.global_vertices@.contains_key(k) ==> {
            &&& o.global_vertices.contains(Handle { id: k })
            &&& c.global_vertices@[k] < p.global_vertices@.len()
            &&& p.global_vertices@[c.global_vertices@[k] as int].position == o.global_vertices.spec_get(
                Handle { id: k },
            ).position
        }
    &&& forall|k: usize| #[trigger]
        c.surface_vertices@.contains_key(k) ==> {
            let full = o.surface_vertices.spec_get(Handle { id: k });
            let part = p.surface_vertices@[c.surface_vertices@[k] as int];
            &&& o.surface_vertices.contains(Handle { id: k })
            &&& c.surface_vertices@[k] < p.surface_vertices@.len()
            &&& part.position == full.position
            &&& c.global_vertices@.contains_key(full.global_form.id)
            &&& part.global_form == c.global_vertices@[full.global_form.id]
        }
    &&& forall|k: usize| #[trigger]
        c.global_edges@.contains_key(k) ==> {
            let full = o.global_edges.spec_get(Handle { id: k });
            let part = p.global_edges@[c.global_edges@[k] as int];
            &&& o.global_edges.contains(Handle { id: k })
            &&& c.global_edges@[k] < p.global_edges@.len()
            &&& c.global_vertices@.contains_key(full.vertex_a.id)
            &&& c.global_vertices@.contains_key(full.vertex_b.id)
            &&& part.vertex_a == c.global_vertices@[full.vertex_a.id]
            &&& part.vertex_b == c.global_vertices@[full.vertex_b.id]
        }
    &&& forall|k: usize| #[trigger]
        c.half_edges@.contains_key(k) ==> {
            let full = o.half_edges.spec_get(Handle { id: k });
            let part = p.half_edges@[c.half_edges@[k] as int];
            &&& o.half_edges.contains(Handle { id: k })
            &&& c.half_edges@[k] < p.half_edges@.len()
            &&& part.back == full.back
            &&& part.front == full.front
            &&& c.surface_vertices@.contains_key(full.start_vertex.id)
            &&& c.surface_vertices@.contains_key(full.end_vertex.id)
            &&& c.global_edges@.contains_key(full.global_form.id)
            &&& part.start_vertex == c.surface_vertices@[full.start_vertex.id]
            &&& part.end_vertex == c.surface_vertices@[full.end_vertex.id]
            &&& part.global_form == c.global_edges@[full.global_form.id]
        }
}

/// The handle of the full object built from each partial object, by its
/// index in the arena
pub struct PartialToFullCache {
    pub global_vertices: HashMap<usize, Handle>,
    pub surface_vertices: HashMap<usize, Handle>,
    pub global_edges: HashMap<usize, Handle>,
    pub half_edges: HashMap<usize, Handle>,
}

impl PartialToFullCache {
    pub fn new() -> (r: Self)
        ensures
            r.global_vertices@ == Map::<usize, Handle>::empty(),
            r.surface_vertices@ == Map::<usize, Handle>::empty(),
            r.global_edges@ == Map::<usize, Handle>::empty(),
            r.half_edges@ == Map::<usize, Handle>::empty(),
    {
        PartialToFullCache {
            global_vertices: HashMap::new(),
            surface_vertices: HashMap::new(),
            global_edges: HashMap::new(),
            half_edges: HashMap::new(),
        }
    }
}

pub open spec fn partial_to_full_extends(a: PartialToFullCache, b: PartialToFullCache) -> bool {
    &&& map_grows(a.global_vertices@, b.global_vertices@)
    &&& map_grows(a.surface_vertices@, b.surface_vertices@)
    &&& map_grows(a.global_edges@, b.global_edges@)
    &&& map_grows(a.half_edges@, b.half_edges@)
}

/// Every entry of the cache maps a partial object to a full object built
/// from it, whose references are the objects built from the partial object's
/// references
pub open spec fn partial_to_full_valid(p: PartialObjects, o: Objects, c: PartialToFullCache) -> bool {
    &&& forall|k: usize| #[trigger]
        c.global_vertices@.contains_key(k) ==> {
            &&& k < p.global_vertices@.len()
            &&& o.global_vertices.contains(c.global_vertices@[k])
            &&& o.global_vertices.spec_get(c.global_vertices@[k]).position == p.global_vertices@[k as int].position
        }
    &&& forall|k: usize| #[trigger]
        c.surface_vertices@.contains_key(k) ==> {
            let part = p.surface_vertices@[k as int];
            let full = o.surface_vertices.spec_get(c.surface_vertices@[k]);
            &&& k < p.surface_vertices@.len()
            &&& o.surface_vertices.contains(c.surface_vertices@[k])
            &&& full.position == part.position
            &&& c.global_vertices@.contains_key(part.global_form)
            &&& full.global_form == c.global_vertices@[part.global_form]
        }
    &&& forall|k: usize| #[trigger]
        c.global_edges@.contains_key(k) ==> {
            let part = p.global_edges@[k as int];
            let full = o.global_edges.spec_get(c.global_edges@[k]);
            &&& k < p.global_edges@.len()
            &&& o.global_edges.contains(c.global_edges@[k])
            &&& c.global_vertices@.contains_key(part.vertex_a)
            &&& c.global_vertices@.contains_key(part.vertex_b)
            &&& full.vertex_a == c.global_vertices@[part.vertex_a]
            &&& full.vertex_b == c.global_vertices@[part.vertex_b]
        }
    &&& forall|k: usize| #[trigger]
        c.half_edges@.contains_key(k) ==> {
            let part = p.half_edges@[k as int];
            let full = o.half_edges.spec_get(c.half_edges@[k]);
            &&& k < p.half_edges@.len()
            &&& o.half_edges.contains(c.half_edges@[k])
            &&& full.back == part.back
            &&& full.front == part.front
            &&& c.surface_vertices@.contains_key(part.start_vertex)
            &&& c.surface_vertices@.contains_key(part.end_vertex)
            &&& c.global_edges@.contains_key(part.global_form)
            &&& full.start_vertex == c.surface_vertices@[part.start_vertex]
            &&& full.end_vertex == c.surface_vertices@[part.end_vertex]
            &&& full.global_form == c.global_edges@[part.global_form]
        }
}

/// Growing the arena keeps every entry of a full-to-partial cache valid
pub proof fn lemma_full_to_partial_mono(o: Objects, p1: PartialObjects, p2: PartialObjects, c: FullToPartialCache)
    requires
        full_to_partial_valid(o, p1, c),
        arena_grows(p1, p2),
    ensures
        full_to_partial_valid(o, p2, c),
{
    assert forall|k: usize| #[trigger] c.global_vertices@.contains_key(k) implies p2.global_vertices@[c.global_vertices@[k] as int]
        == p1.global_vertices@[c.global_vertices@[k] as int] by {
        assert(p1.global_vertices@[c.global_vertices@[k] as int] == p2.global_vertices@.subrange(0, p1.global_vertices@.len() as int)[c.global_vertices@[k] as int]);
    }
    assert forall|k: usize| #[trigger] c.surface_vertices@.contains_key(k) implies p2.surface_vertices@[c.surface_vertices@[k] as int]
        == p1.surface_vertices@[c.surface_vertices@[k] as int] by {
        assert(p1.surface_vertices@[c.surface_vertices@[k] as int] == p2.surface_vertices@.subrange(0, p1.surface_vertices@.len() as int)[c.surface_vertices@[k] as int]);
    }
    assert forall|k: usize| #[trigger] c.global_edges@.contains_key(k) implies p2.global_edges@[c.global_edges@[k] as int]
        == p1.global_edges@[c.global_edges@[k] as int] by {
        assert(p1.global_edges@[c.global_edges@[k] as int] == p2.global_edges@.subrange(0, p1.global_edges@.len() as int)[c.global_edges@[k] as int]);
    }
    assert forall|k: usize| #[trigger] c.half_edges@.contains_key(k) implies p2.half_edges@[c.half_edges@[k] as int]
        == p1.half_edges@[c.half_edges@[k] as int] by {
        assert(p1.half_edges@[c.half_edges@[k] as int] == p2.half_edges@.subrange(0, p1.half_edges@.len() as int)[c.half_edges@[k] as int]);
    }
}

/// Growing the stores keeps every entry of a partial-to-full cache valid
pub proof fn lemma_partial_to_full_mono(p: PartialObjects, o1: Objects, o2: Objects, c: PartialToFullCache)
    requires
        partial_to_full_valid(p, o1, c),
        objects_extend(o1, o2),
    ensures
        partial_to_full_valid(p, o2, c),
{
    assert forall|k: usize| #[trigger] c.global_vertices@.contains_key(k) implies o2.global_vertices@[c.global_vertices@[k].id as int]
        == o1.global_vertices@[c.global_vertices@[k].id as int] by {}
    assert forall|k: usize| #[trigger] c.surface_vertices@.contains_key(k) implies o2.surface_vertices@[c.surface_vertices@[k].id as int]
        == o1.surface_vertices@[c.surface_vertices@[k].id as int] by {}
    assert forall|k: usize| #[trigger] c.global_edges@.contains_key(k) implies o2.global_edges@[c.global_edges@[k].id as int]
        == o1.global_edges@[c.global_edges@[k].id as int] by {}
    assert forall|k: usize| #[trigger] c.half_edges@.contains_key(k) implies o2.half_edges@[c.half_edges@[k].id as int]
        == o1.half_edges@[c.half_edges@[k].id as int] by {}
}

/// Copy the global vertex `h` into the arena, or reuse its copy
fn global_vertex_from_full(
    h: Handle,
    objects: &Objects,
    partials: &mut PartialObjects,
    cache: &mut FullToPartialCache,
) -> (r: usize)
    requires
        objects.global_vertices.contains(h),
        old(partials).wf(),
        full_to_partial_valid(*objects, *old(partials), *old(cache)),
    ensures
        final(partials).wf(),
        arena_grows(*old(partials), *final(partials)),
        full_to_partial_extends(*old(cache), *final(cache)),
        full_to_partial_valid(*objects, *final(partials), *final(cache)),
        final(cache).global_vertices@.contains_key(h.id),
        final(cache).global_vertices@[h.id] == r,
        final(cache).surface_vertices@ == old(cache).surface_vertices@,
        final(cache).global_edges@ == old(cache).global_edges@,
        final(cache).half_edges@ == old(cache).half_edges@,
{
    match cache.global_vertices.get(&h.id) {
        Some(i) => {
            proof {
                lemma_arena_grows_refl(*partials);
            }
            return *i;
        },
        None => {},
    }
    let full: GlobalVertex = *objects.global_vertices.get(h);
    let ghost p0 = *partials;
    let i = partials.global_vertices.len();
    partials.global_vertices.push(PartialGlobalVertex { position: full.position });
    proof {
        assert(p0.global_vertices@ =~= partials.global_vertices@.subrange(0, p0.global_vertices@.len() as int));
        assert(p0.surface_vertices@ =~= partials.surface_vertices@.subrange(0, p0.surface_vertices@.len() as int));
        assert(p0.global_edges@ =~= partials.global_edges@.subrange(0, p0.global_edges@.len() as int));
        assert(p0.half_edges@ =~= partials.half_edges@.subrange(0, p0.half_edges@.len() as int));
        lemma_full_to_partial_mono(*objects, p0, *partials, *cache);
    }
    cache.global_vertices.insert(h.id, i);
    i
}

/// Copy the surface vertex `h` into the arena, or reuse its copy
fn surface_vertex_from_full(
    h: Handle,
    objects: &Objects,
    partials: &mut PartialObjects,
    cache: &mut FullToPartialCache,
) -> (r: usize)
    requires
        resolves_surface_vertex(*objects, h),
        old(partials).wf(),
        full_to_partial_valid(*objects, *old(partials), *old(cache)),
    ensures
        final(partials).wf(),
        arena_grows(*old(partials), *final(partials)),
        full_to_partial_extends(*old(cache), *final(cache)),
        full_to_partial_valid(*objects, *final(partials), *final(cache)),
        final(cache).surface_vertices@.contains_key(h.id),
        final(cache).surface_vertices@[h.id] == r,
        final(cache).global_edges@ == old(cache).global_edges@,
        final(cache).half_edges@ == old(cache).half_edges@,
{
    match cache.surface_vertices.get(&h.id) {
        Some(i) => {
            proof {
                lemma_arena_grows_refl(*partials);
            }
            return *i;
        },
        None => {},
    }
    let full: SurfaceVertex = *objects.surface_vertices.get(h);
    let ghost p0 = *partials;
    let global_form = global_vertex_from_full(full.global_form, objects, partials, cache);
    let ghost p1 = *partials;
    let i = partials.surface_vertices.len();
    partials.surface_vertices.push(PartialSurfaceVertex { position: full.position, global_form });
    proof {
        assert(p1.global_vertices@ =~= partials.global_vertices@.subrange(0, p1.global_vertices@.len() as int));
        assert(p1.surface_vertices@ =~= partials.surface_vertices@.subrange(0, p1.surface_vertices@.len() as int));
        assert(p1.global_edges@ =~= partials.global_edges@.subrange(0, p1.global_edges@.len() as int));
        assert(p1.half_edges@ =~= partials.half_edges@.subrange(0, p1.half_edges@.len() as int));
        lemma_arena_grows_trans(p0, p1, *partials);
        lemma_full_to_partial_mono(*objects, p1, *partials, *cache);
    }
    cache.surface_vertices.insert(h.id, i);
    i
}

/// Copy the global edge `h` into the arena, or reuse its copy
fn global_edge_from_full(
    h: Handle,
    objects: &Objects,
    partials: &mut PartialObjects,
    cache: &mut FullToPartialCache,
) -> (r: usize)
    requires
        resolves_global_edge(*objects, h),
        old(partials).wf(),
        full_to_partial_valid(*objects, *old(partials), *old(cache)),
    ensures
        final(partials).wf(),
        arena_grows(*old(partials), *final(partials)),
        full_to_partial_extends(*old(cache), *final(cache)),
        full_to_partial_valid(*objects, *final(partials), *final(cache)),
        final(cache).global_edges@.contains_key(h.id),
        final(cache).global_edges@[h.id] == r,
        final(cache).surface_vertices@ == old(cache).surface_vertices@,
        final(cache).half_edges@ == old(cache).half_edges@,
{
    match cache.global_edges.get(&h.id) {
        Some(i) => {
            proof {
                lemma_arena_grows_refl(*partials);
            }
            return *i;
        },
        None => {},
    }
    let full: GlobalEdge = *objects.global_edges.get(h);
    let ghost p0 = *partials;
    let vertex_a = global_vertex_from_full(full.vertex_a, objects, partials, cache);
    let ghost p1 = *partials;
    let ghost c1 = *cache;
    let vertex_b = global_vertex_from_full(full.vertex_b, objects, partials, cache);
    let ghost p2 = *partials;
    let i = partials.global_edges.len();
    partials.global_edges.push(PartialGlobalEdge { vertex_a, vertex_b });
    proof {
        assert(p2.global_vertices@ =~= partials.global_vertices@.subrange(0, p2.global_vertices@.len() as int));
        assert(p2.surface_vertices@ =~= partials.surface_vertices@.subrange(0, p2.surface_vertices@.len() as int));
        assert(p2.global_edges@ =~= partials.global_edges@.subrange(0, p2.global_edges@.len() as int));
        assert(p2.half_edges@ =~= partials.half_edges@.subrange(0, p2.half_edges@.len() as int));
        lemma_arena_grows_trans(p0, p1, p2);
        lemma_arena_grows_trans(p0, p2, *partials);
        lemma_full_to_partial_mono(*objects, p2, *partials, *cache);
        assert(c1.global_vertices@.contains_key(full.vertex_a.id));
    }
    cache.global_edges.insert(h.id, i);
    i
}

/// Copy the half-edge `h` into the arena, or reuse its copy
fn half_edge_from_full(
    h: Handle,
    objects: &Objects,
    partials: &mut PartialObjects,
    cache: &mut FullToPartialCache,
) -> (r: usize)
    requires
        resolves_half_edge_deep(*objects, h),
        old(partials).wf(),
        full_to_partial_valid(*objects, *old(partials), *old(cache)),
    ensures
        final(partials).wf(),
        arena_grows(*old(partials), *final(partials)),
        full_to_partial_extends(*old(cache), *final(cache)),
        full_to_partial_valid(*objects, *final(partials), *final(cache)),
        final(cache).half_edges@.contains_key(h.id),
        final(cache).half_edges@[h.id] == r,
{
    match cache.half_edges.get(&h.id) {
        Some(i) => {
            proof {
                lemma_arena_grows_refl(*partials);
            }
            return *i;
        },
        None => {},
    }
    let full: HalfEdge = *objects.half_edges.get(h);
    let ghost p0 = *partials;
    let start_vertex = surface_vertex_from_full(full.start_vertex, objects, partials, cache);
    let ghost p1 = *partials;
    let ghost c1 = *cache;
    let end_vertex = surface_vertex_from_full(full.end_vertex, objects, partials, cache);
    let ghost p2 = *partials;
    let ghost c2 = *cache;
    let global_form = global_edge_from_full(full.global_form, objects, partials, cache);
    let ghost p3 = *partials;
    let i = partials.half_edges.len();
    partials.half_edges.push(
        PartialHalfEdge { back: full.back, front: full.front, start_vertex, end_vertex, global_form },
    );
    proof {
        assert(p3.global_vertices@ =~= partials.global_vertices@.subrange(0, p3.global_vertices@.len() as int));
        assert(p3.surface_vertices@ =~= partials.surface_vertices@.subrange(0, p3.surface_vertices@.len() as int));
        assert(p3.global_edges@ =~= partials.global_edges@.subrange(0, p3.global_edges@.len() as int));
        assert(p3.half_edges@ =~= partials.half_edges@.subrange(0, p3.half_edges@.len() as int));
        lemma_arena_grows_trans(p0, p1, p2);
        lemma_arena_grows_trans(p0, p2, p3);
        lemma_arena_grows_trans(p0, p3, *partials);
        lemma_full_to_partial_mono(*objects, p3, *partials, *cache);
        assert(c1.surface_vertices@.contains_key(full.start_vertex.id));
        assert(c2.surface_vertices@.contains_key(full.end_vertex.id));
    }
    cache.half_edges.insert(h.id, i);
    i
}

/// Build the partial global vertex `i`, or reuse what was built from it
fn build_global_vertex(
    i: usize,
    partials: &PartialObjects,
    objects: &mut Objects,
    cache: &mut PartialToFullCache,
) -> (r: Handle)
    requires
        i < partials.global_vertices@.len(),
        partial_to_full_valid(*partials, *old(objects), *old(cache)),
    ensures
        objects_extend(*old(objects), *final(objects)),
        partial_to_full_extends(*old(cache), *final(cache)),
        partial_to_full_valid(*partials, *final(objects), *final(cache)),
        final(cache).global_vertices@.contains_key(i),
        final(cache).global_vertices@[i] == r,
        final(cache).surface_vertices@ == old(cache).surface_vertices@,
        final(cache).global_edges@ == old(cache).global_edges@,
        final(cache).half_edges@ == old(cache).half_edges@,
{
    match cache.global_vertices.get(&i) {
        Some(h) => return *h,
        None => {},
    }
    let partial = partials.global_vertices[i];
    let ghost o0 = *objects;
    let h = objects.global_vertices.push(GlobalVertex::new(partial.position));
    proof {
        lemma_partial_to_full_mono(*partials, o0, *objects, *cache);
    }
    cache.global_vertices.insert(i, h);
    h
}

/// Build the partial surface vertex `i`, or reuse what was built from it
fn build_surface_vertex(
    i: usize,
    partials: &PartialObjects,
    objects: &mut Objects,
    cache: &mut PartialToFullCache,
) -> (r: Handle)
    requires
        partials.wf(),
        i < partials.surface_vertices@.len(),
        partial_to_full_valid(*partials, *old(objects), *old(cache)),
    ensures
        objects_extend(*old(objects), *final(objects)),
        partial_to_full_extends(*old(cache), *final(cache)),
        partial_to_full_valid(*partials, *final(objects), *final(cache)),
        final(cache).surface_vertices@.contains_key(i),
        final(cache).surface_vertices@[i] == r,
        final(cache).global_edges@ == old(cache).global_edges@,
        final(cache).half_edges@ == old(cache).half_edges@,
{
    match cache.surface_vertices.get(&i) {
        Some(h) => return *h,
        None => {},
    }
    let partial = partials.surface_vertices[i];
    let ghost o0 = *objects;
    let global_form = build_global_vertex(partial.global_form, partials, objects, cache);
    let ghost o1 = *objects;
    let h = objects.surface_vertices.push(SurfaceVertex::new(partial.position, global_form));
    proof {
        lemma_partial_to_full_mono(*partials, o1, *objects, *cache);
        lemma_objects_extend_trans(o0, o1, *objects);
    }
    cache.surface_vertices.insert(i, h);
    h
}

/// Build the partial global edge `i`, or reuse what was built from it
fn build_global_edge(
    i: usize,
    partials: &PartialObjects,
    objects: &mut Objects,
    cache: &mut PartialToFullCache,
) -> (r: Handle)
    requires
        partials.wf(),
        i < partials.global_edges@.len(),
        partial_to_full_valid(*partials, *old(objects), *old(cache)),
    ensures
        objects_extend(*old(objects), *final(objects)),
        partial_to_full_extends(*old(cache), *final(cache)),
        partial_to_full_valid(*partials, *final(objects), *final(cache)),
        final(cache).global_edges@.contains_key(i),
        final(cache).global_edges@[i] == r,
        final(cache).surface_vertices@ == old(cache).surface_vertices@,
        final(cache).half_edges@ == old(cache).half_edges@,
{
    match cache.global_edges.get(&i) {
        Some(h) => return *h,
        None => {},
    }
    let partial = partials.global_edges[i];
    let ghost o0 = *objects;
    let vertex_a = build_global_vertex(partial.vertex_a, partials, objects, cache);
    let ghost o1 = *objects;
    let ghost c1 = *cache;
    let vertex_b = build_global_vertex(partial.vertex_b, partials, objects, cache);
    let ghost o2 = *objects;
    let h = objects.global_edges.push(GlobalEdge::new((vertex_a, vertex_b)));
    proof {
        lemma_partial_to_full_mono(*partials, o2, *objects, *cache);
        lemma_objects_extend_trans(o0, o1, o2);
        lemma_objects_extend_trans(o0, o2, *objects);
        assert(c1.global_vertices@.contains_key(partial.vertex_a));
    }
    cache.global_edges.insert(i, h);
    h
}

/// Build the partial half-edge `i`, or reuse what was built from it
fn build_half_edge(
    i: usize,
    partials: &PartialObjects,
    objects: &mut Objects,
    cache: &mut PartialToFullCache,
) -> (r: Handle)
    requires
        partials.wf(),
        i < partials.half_edges@.len(),
        partial_to_full_valid(*partials, *old(objects), *old(cache)),
    ensures
        objects_extend(*old(objects), *final(objects)),
        partial_to_full_extends(*old(cache), *final(cache)),
        partial_to_full_valid(*partials, *final(objects), *final(cache)),
        final(cache).half_edges@.contains_key(i),
        final(cache).half_edges@[i] == r,
{
    match cache.half_edges.get(&i) {
        Some(h) => return *h,
        None => {},
    }
    let partial = partials.half_edges[i];
    let ghost o0 = *objects;
    let start_vertex = build_surface_vertex(partial.start_vertex, partials, objects, cache);
    let ghost o1 = *objects;
    let ghost c1 = *cache;
    let end_vertex = build_surface_vertex(partial.end_vertex, partials, objects, cache);
    let ghost o2 = *objects;
    let ghost c2 = *cache;
    let global_form = build_global_edge(partial.global_form, partials, objects, cache);
    let ghost o3 = *objects;
    let h = objects.half_edges.push(
        HalfEdge::new((partial.back, partial.front), (start_vertex, end_vertex), global_form),
    );
    proof {
        lemma_partial_to_full_mono(*partials, o3, *objects, *cache);
        lemma_objects_extend_trans(o0, o1, o2);
        lemma_objects_extend_trans(o0, o2, o3);
        lemma_objects_extend_trans(o0, o3, *objects);
        assert(c1.surface_vertices@.contains_key(partial.start_vertex));
        assert(c2.surface_vertices@.contains_key(partial.end_vertex));
    }
    cache.half_edges.insert(i, h);
    h
}

impl PartialCycle {
    /// Copy the graph behind `cycle` into the arena
    ///
    /// Each object that is reachable on several paths is copied once, so the
    /// copies share what the originals share.
    pub fn from_full(
        cycle: &Cycle,
        objects: &Objects,
        partials: &mut PartialObjects,
        cache: &mut FullToPartialCache,
    ) -> (r: Self)
        requires
            forall|i: int|
                0 <= i < cycle.half_edges@.len() ==> resolves_half_edge_deep(*objects, #[trigger] cycle.half_edges@[i]),
            old(partials).wf(),
            full_to_partial_valid(*objects, *old(partials), *old(cache)),
        ensures
            final(partials).wf(),
            arena_grows(*old(partials), *final(partials)),
            full_to_partial_extends(*old(cache), *final(cache)),
            full_to_partial_valid(*objects, *final(partials), *final(cache)),
            r.half_edges@.len() == cycle.half_edges@.len(),
            forall|i: int|
                0 <= i < cycle.half_edges@.len() ==> final(cache).half_edges@.contains_key(
                    #[trigger] cycle.half_edges@[i].id,
                ) && r.half_edges@[i] == final(cache).half_edges@[cycle.half_edges@[i].id]
                    && r.half_edges@[i] < final(partials).half_edges@.len(),
    {
        let mut half_edges: Vec<usize> = Vec::new();
        let ghost p0 = *partials;
        let ghost c0 = *cache;
        let mut i: usize = 0;
        proof {
            lemma_arena_grows_refl(*partials);
        }
        while i < cycle.half_edges.len()
            invariant
                i <= cycle.half_edges@.len(),
                p0 == *old(partials),
                c0 == *old(cache),
                forall|j: int|
                    0 <= j < cycle.half_edges@.len() ==> resolves_half_edge_deep(*objects, #[trigger] cycle.half_edges@[j]),
                partials.wf(),
                arena_grows(p0, *partials),
                full_to_partial_extends(c0, *cache),
                full_to_partial_valid(*objects, *partials, *cache),
                half_edges@.len() == i,
                forall|j: int|
                    0 <= j < i ==> cache.half_edges@.contains_key(#[trigger] cycle.half_edges@[j].id)
                        && half_edges@[j] == cache.half_edges@[cycle.half_edges@[j].id],
            decreases cycle.half_edges@.len() - i,
        {
            let ghost p1 = *partials;
            let index = half_edge_from_full(cycle.half_edges[i], objects, partials, cache);
            proof {
                lemma_arena_grows_trans(p0, p1, *partials);
            }
            half_edges.push(index);
            i = i + 1;
        }
        PartialCycle { half_edges }
    }

    /// Insert the partial objects behind the cycle into the stores, children
    /// before parents, and return the full cycle
    ///
    /// Each partial object is built once, so the built objects share what the
    /// partial objects share.
    pub fn build(self, partials: &PartialObjects, objects: &mut Objects, cache: &mut PartialToFullCache) -> (r: Cycle)
        requires
            partials.wf(),
            forall|i: int| 0 <= i < self.half_edges@.len() ==> #[trigger] self.half_edges@[i] < partials.half_edges@.len(),
            partial_to_full_valid(*partials, *old(objects), *old(cache)),
        ensures
            objects_extend(*old(objects), *final(objects)),
            partial_to_full_extends(*old(cache), *final(cache)),
            partial_to_full_valid(*partials, *final(objects), *final(cache)),
            r.half_edges@.len() == self.half_edges@.len(),
            forall|i: int|
                0 <= i < self.half_edges@.len() ==> final(cache).half_edges@.contains_key(
                    #[trigger] self.half_edges@[i],
                ) && r.half_edges@[i] == final(cache).half_edges@[self.half_edges@[i]],
    {
        let mut half_edges: Vec<Handle> = Vec::new();
        let ghost o0 = *objects;
        let ghost c0 = *cache;
        let mut i: usize = 0;
        while i < self.half_edges.len()
            invariant
                i <= self.half_edges@.len(),
                o0 == *old(objects),
                c0 == *old(cache),
                partials.wf(),
                forall|j: int| 0 <= j < self.half_edges@.len() ==> #[trigger] self.half_edges@[j] < partials.half_edges@.len(),
                objects_extend(o0, *objects),
                partial_to_full_extends(c0, *cache),
                partial_to_full_valid(*partials, *objects, *cache),
                half_edges@.len() == i,
                forall|j: int|
                    0 <= j < i ==> cache.half_edges@.contains_key(#[trigger] self.half_edges@[j])
                        && half_edges@[j] == cache.half_edges@[self.half_edges@[j]],
            decreases self.half_edges@.len() - i,
        {
            let ghost o1 = *objects;
            let h = build_half_edge(self.half_edges[i], partials, objects, cache);
            proof {
                lemma_objects_extend_trans(o0, o1, *objects);
            }
            half_edges.push(h);
            i = i + 1;
        }
        Cycle::new(half_edges)
    }
}

/// `q` is `p` with values edited and every reference kept: the same
/// objects, referring to the same indices
pub open spec fn same_references(p: PartialObjects, q: PartialObjects) -> bool {
    &&& q.global_vertices@.len() == p.global_vertices@.len()
    &&& q.surface_vertices@.len() == p.surface_vertices@.len()
    &&& q.global_edges@.len() == p.global_edges@.len()
    &&& q.half_edges@.len() == p.half_edges@.len()
    &&& forall|i: int|
        0 <= i < p.surface_vertices@.len() ==> (#[trigger] q.surface_vertices@[i]).global_form
            == p.surface_vertices@[i].global_form
    &&& forall|i: int|
        0 <= i < p.global_edges@.len() ==> (#[trigger] q.global_edges@[i]).vertex_a == p.global_edges@[i].vertex_a
            && q.global_edges@[i].vertex_b == p.global_edges@[i].vertex_b
    &&& forall|i: int|
        0 <= i < p.half_edges@.len() ==> {
            &&& (#[trigger] q.half_edges@[i]).start_vertex == p.half_edges@[i].start_vertex
            &&& q.half_edges@[i].end_vertex == p.half_edges@[i].end_vertex
            &&& q.half_edges@[i].global_form == p.half_edges@[i].global_form
        }
}

/// Two half-edges of which the end of the first and the start of the second
/// share a global vertex still share one after a round trip: copied into
/// partial objects, edited without changing any reference, and built again.
pub proof fn lemma_round_trip_keeps_shared_vertex(
    o: Objects,
    p: PartialObjects,
    to_partial: FullToPartialCache,
    edited: PartialObjects,
    built: Objects,
    to_full: PartialToFullCache,
    x: Handle,
    y: Handle,
)
    requires
        full_to_partial_valid(o, p, to_partial),
        to_partial.half_edges@.contains_key(x.id),
        to_partial.half_edges@.contains_key(y.id),
        o.surface_vertices.spec_get(o.half_edges.spec_get(x).end_vertex).global_form
            == o.surface_vertices.spec_get(o.half_edges.spec_get(y).start_vertex).global_form,
        same_references(p, edited),
        partial_to_full_valid(edited, built, to_full),
        to_full.half_edges@.contains_key(to_partial.half_edges@[x.id]),
        to_full.half_edges@.contains_key(to_partial.half_edges@[y.id]),
    ensures
        ({
            let x2 = built.half_edges.spec_get(to_full.half_edges@[to_partial.half_edges@[x.id]]);
            let y2 = built.half_edges.spec_get(to_full.half_edges@[to_partial.half_edges@[y.id]]);
            built.surface_vertices.spec_get(x2.end_vertex).global_form == built.surface_vertices.spec_get(
                y2.start_vertex,
            ).global_form
        }),
{
    let fx = o.half_edges.spec_get(Handle { id: x.id });
    let fy = o.half_edges.spec_get(Handle { id: y.id });
    let px = to_partial.half_edges@[x.id];
    let py = to_partial.half_edges@[y.id];
    assert(to_partial.surface_vertices@.contains_key(fx.end_vertex.id));
    assert(to_partial.surface_vertices@.contains_key(fy.start_vertex.id));
    let sx = to_partial.surface_vertices@[fx.end_vertex.id];
    let sy = to_partial.surface_vertices@[fy.start_vertex.id];
    let gx = o.surface_vertices.spec_get(Handle { id: fx.end_vertex.id }).global_form;
    let gy = o.surface_vertices.spec_get(Handle { id: fy.start_vertex.id }).global_form;
    assert(gx == gy);
    assert(p.surface_vertices@[sx as int].global_form == to_partial.global_vertices@[gx.id]);
    assert(p.surface_vertices@[sy as int].global_form == to_partial.global_vertices@[gy.id]);
    assert(edited.half_edges@[px as int].end_vertex == sx);
    assert(edited.half_edges@[py as int].start_vertex == sy);
    assert(edited.surface_vertices@[sx as int].global_form == p.surface_vertices@[sx as int].global_form);
    assert(edited.surface_vertices@[sy as int].global_form == p.surface_vertices@[sy as int].global_form);
    assert(to_full.surface_vertices@.contains_key(sx));
    assert(to_full.surface_vertices@.contains_key(sy));
}

} // verus!

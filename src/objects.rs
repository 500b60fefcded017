//! The topological objects, and the stores that hold them
//!
//! Objects refer to each other by [`Handle`]. Positions are integer
//! coordinates in model units.

use vstd::prelude::*;

use crate::storage::{extends, lemma_extends_trans, Handle, Store};

verus! {

/// A point in 3D model space
#[derive(Clone, Copy, Debug, PartialEq, Eq, Hash, Structural)]
pub struct Point3 {
    pub x: i32,
    pub y: i32,
    pub z: i32,
}

/// A point in the 2D parameter space of a surface
#[derive(Clone, Copy, Debug, PartialEq, Eq, Hash, Structural)]
pub struct Point2 {
    pub u: i32,
    pub v: i32,
}

/// A vertex, defined in global (3D) coordinates
///
/// Vertices must be unique within a shape: distinct vertices must not be
/// closer to each other than the minimum distance of the validation
/// configuration.
#[derive(Clone, Copy, Debug, PartialEq, Eq, Hash, Structural)]
pub struct GlobalVertex {
    pub position: Point3,
}

impl GlobalVertex {
    /// Construct a `GlobalVertex` from a position
    pub fn new(position: Point3) -> (r: Self)
        ensures
            r.position == position,
    {
        GlobalVertex { position }
    }

    /// Access the position of the vertex
    pub fn position(&self) -> (r: Point3)
        ensures
            r == self.position,
    {
        self.position
    }
}

/// A vertex, defined in surface (2D) coordinates, with its global form
#[derive(Clone, Copy, Debug, PartialEq, Eq, Hash, Structural)]
pub struct SurfaceVertex {
    pub position: Point2,
    pub global_form: Handle,
}

impl SurfaceVertex {
    /// Construct a new instance of `SurfaceVertex`
    pub fn new(position: Point2, global_form: Handle) -> (r: Self)
        ensures
            r.position == position,
            r.global_form == global_form,
    {
        SurfaceVertex { position, global_form }
    }

    /// Access the position of the vertex on the surface
    pub fn position(&self) -> (r: Point2)
        ensures
            r == self.position,
    {
        self.position
    }

    /// Access the global form of the vertex
    pub fn global_form(&self) -> (r: &Handle)
        ensures
            *r == self.global_form,
    {
        &self.global_form
    }
}

/// The two handles ordered by identity, the smaller first
pub open spec fn normalized(vertices: (Handle, Handle)) -> (Handle, Handle) {
    if vertices.0.id <= vertices.1.id {
        vertices
    } else {
        (vertices.1, vertices.0)
    }
}

/// An edge, defined in global (3D) coordinates, by its two end vertices
#[derive(Clone, Copy, Debug, PartialEq, Eq, Hash, Structural)]
pub struct GlobalEdge {
    pub vertex_a: Handle,
    pub vertex_b: Handle,
}

impl GlobalEdge {
    /// The two vertices, in the order they were given
    pub open spec fn vertices(&self) -> (Handle, Handle) {
        (self.vertex_a, self.vertex_b)
    }

    /// Construct a `GlobalEdge` from its two vertices
    pub fn new(vertices: (Handle, Handle)) -> (r: Self)
        ensures
            r.vertices() == vertices,
    {
        GlobalEdge { vertex_a: vertices.0, vertex_b: vertices.1 }
    }

    /// Access the vertices, ordered by identity
    pub fn vertices_in_normalized_order(&self) -> (r: (Handle, Handle))
        ensures
            r == normalized(self.vertices()),
    {
        if self.vertex_a.id <= self.vertex_b.id {
            (self.vertex_a, self.vertex_b)
        } else {
            (self.vertex_b, self.vertex_a)
        }
    }
}

/// A directed, bounded portion of a curve
///
/// `back` and `front` are the curve coordinates of its two vertices,
/// `start_vertex` and `end_vertex` the handles of those vertices, and
/// `global_form` the edge that it shares with its reverse half-edge.
#[derive(Clone, Copy, Debug, PartialEq, Eq, Hash, Structural)]
pub struct HalfEdge {
    pub back: i32,
    pub front: i32,
    pub start_vertex: Handle,
    pub end_vertex: Handle,
    pub global_form: Handle,
}

impl HalfEdge {
    /// The curve coordinates of the back and the front vertex
    pub open spec fn boundary(&self) -> (i32, i32) {
        (self.back, self.front)
    }

    /// The start and the end vertex
    pub open spec fn surface_vertices(&self) -> (Handle, Handle) {
        (self.start_vertex, self.end_vertex)
    }

    /// Construct a `HalfEdge`
    pub fn new(boundary: (i32, i32), surface_vertices: (Handle, Handle), global_form: Handle) -> (r: Self)
        ensures
            r.boundary() == boundary,
            r.surface_vertices() == surface_vertices,
            r.global_form == global_form,
    {
        HalfEdge {
            back: boundary.0,
            front: boundary.1,
            start_vertex: surface_vertices.0,
            end_vertex: surface_vertices.1,
            global_form,
        }
    }
}

/// A cycle of connected half-edges
#[derive(Clone, Debug)]
pub struct Cycle {
    pub half_edges: Vec<Handle>,
}

impl Cycle {
    /// Construct a `Cycle` from its half-edges, in order
    pub fn new(half_edges: Vec<Handle>) -> (r: Self)
        ensures
            r.half_edges@ == half_edges@,
    {
        Cycle { half_edges }
    }
}

/// The stores of all object kinds
pub struct Objects {
    pub global_vertices: Store<GlobalVertex>,
    pub surface_vertices: Store<SurfaceVertex>,
    pub global_edges: Store<GlobalEdge>,
    pub half_edges: Store<HalfEdge>,
    pub cycles: Store<Cycle>,
}

/// Every store of `b` extends the same store of `a`
pub open spec fn objects_extend(a: Objects, b: Objects) -> bool {
    &&& extends(a.global_vertices@, b.global_vertices@)
    &&& extends(a.surface_vertices@, b.surface_vertices@)
    &&& extends(a.global_edges@, b.global_edges@)
    &&& extends(a.half_edges@, b.half_edges@)
    &&& extends(a.cycles@, b.cycles@)
}

/// Growing the stores twice is growing them once
pub proof fn lemma_objects_extend_trans(a: Objects, b: Objects, c: Objects)
    requires
        objects_extend(a, b),
        objects_extend(b, c),
    ensures
        objects_extend(a, c),
{
    lemma_extends_trans(a.global_vertices@, b.global_vertices@, c.global_vertices@);
    lemma_extends_trans(a.surface_vertices@, b.surface_vertices@, c.surface_vertices@);
    lemma_extends_trans(a.global_edges@, b.global_edges@, c.global_edges@);
    lemma_extends_trans(a.half_edges@, b.half_edges@, c.half_edges@);
    lemma_extends_trans(a.cycles@, b.cycles@, c.cycles@);
}

impl Objects {
    /// Construct a set of empty stores
    pub fn new() -> (r: Self)
        ensures
            r.global_vertices@.len() == 0,
            r.surface_vertices@.len() == 0,
            r.global_edges@.len() == 0,
            r.half_edges@.len() == 0,
            r.cycles@.len() == 0,
    {
        Objects {
            global_vertices: Store::new(),
            surface_vertices: Store::new(),
            global_edges: Store::new(),
            half_edges: Store::new(),
            cycles: Store::new(),
        }
    }
}

/// Insert an object into the store of its kind
pub trait Insert: Sized {
    /// The slots of the store that holds objects of this kind
    spec fn stored(objects: Objects) -> Seq<Option<Self>>;

    /// Insert the object into its store, under a fresh identity
    fn insert(self, objects: &mut Objects) -> (h: Handle)
        ensures
            h.id == Self::stored(*old(objects)).len(),
            Self::stored(*final(objects)) == Self::stored(*old(objects)).push(Some(self)),
            objects_extend(*old(objects), *final(objects)),
    ;
}

impl Insert for GlobalVertex {
    open spec fn stored(objects: Objects) -> Seq<Option<Self>> {
        objects.global_vertices@
    }

    fn insert(self, objects: &mut Objects) -> (h: Handle) {
        objects.global_vertices.push(self)
    }
}

impl Insert for SurfaceVertex {
    open spec fn stored(objects: Objects) -> Seq<Option<Self>> {
        objects.surface_vertices@
    }

    fn insert(self, objects: &mut Objects) -> (h: Handle) {
        objects.surface_vertices.push(self)
    }
}

impl Insert for GlobalEdge {
    open spec fn stored(objects: Objects) -> Seq<Option<Self>> {
        objects.global_edges@
    }

    fn insert(self, objects: &mut Objects) -> (h: Handle) {
        objects.global_edges.push(self)
    }
}

impl Insert for HalfEdge {
    open spec fn stored(objects: Objects) -> Seq<Option<Self>> {
        objects.half_edges@
    }

    fn insert(self, objects: &mut Objects) -> (h: Handle) {
        objects.half_edges.push(self)
    }
}

impl Insert for Cycle {
    open spec fn stored(objects: Objects) -> Seq<Option<Self>> {
        objects.cycles@
    }

    fn insert(self, objects: &mut Objects) -> (h: Handle) {
        objects.cycles.push(self)
    }
}

} // verus!

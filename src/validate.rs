//! Validation of objects against the invariants of the object graph
//!
//! Validation never changes anything. It runs every check of an object and
//! collects every failure, in a fixed order.

use vstd::prelude::*;

use crate::objects::{normalized, Cycle, GlobalEdge, HalfEdge, Objects, Point3, SurfaceVertex};
use crate::storage::Handle;

verus! {

/// Tolerances that decide what counts as coincident
#[derive(Clone, Copy, Debug, PartialEq, Eq, Structural)]
pub struct ValidationConfig {
    /// The minimum distance between distinct vertices
    pub distinct_min_distance: u32,
}

/// [`HalfEdge`] validation failed
#[derive(Clone, Copy, Debug, PartialEq, Eq, Structural)]
pub enum HalfEdgeValidationError {
    /// The global form of the start vertex is neither vertex of the global
    /// edge
    GlobalVertexMismatch {
        global_vertex_from_half_edge: Handle,
        global_vertex_a_from_global_form: Handle,
        global_vertex_b_from_global_form: Handle,
        half_edge: HalfEdge,
    },
    /// The curve coordinates of the two vertices are too close
    VerticesAreCoincident { back_position: i32, front_position: i32, distance: u32, half_edge: HalfEdge },
    /// The two vertices have distinct global forms whose positions are too
    /// close
    GlobalVerticesAreCoincident { global_vertex_a: Handle, global_vertex_b: Handle, half_edge: HalfEdge },
}

/// [`Cycle`] validation failed
#[derive(Clone, Copy, Debug, PartialEq, Eq, Structural)]
pub enum CycleValidationError {
    /// The half-edge at `index` does not end at the global vertex where the
    /// next half-edge of the cycle starts
    HalfEdgesDisconnected { index: usize, end_of_half_edge: Handle, start_of_next: Handle },
}

/// Any validation error
#[derive(Clone, Copy, Debug, PartialEq, Eq, Structural)]
pub enum ValidationError {
    HalfEdge(HalfEdgeValidationError),
    Cycle(CycleValidationError),
}

/// The squared distance of two points
pub open spec fn distance_squared(a: Point3, b: Point3) -> int {
    (a.x - b.x) * (a.x - b.x) + (a.y - b.y) * (a.y - b.y) + (a.z - b.z) * (a.z - b.z)
}

/// The distance of two curve coordinates
pub open spec fn distance_1d(a: i32, b: i32) -> int {
    if a >= b {
        a - b
    } else {
        b - a
    }
}

impl Objects {
    /// Every object that the validation of `half_edge` reads is in its store
    pub open spec fn resolves_half_edge(&self, half_edge: HalfEdge) -> bool {
        &&& self.surface_vertices.contains(half_edge.start_vertex)
        &&& self.surface_vertices.contains(half_edge.end_vertex)
        &&& self.global_edges.contains(half_edge.global_form)
        &&& self.global_vertices.contains(
            self.surface_vertices.spec_get(half_edge.start_vertex).global_form,
        )
        &&& self.global_vertices.contains(
            self.surface_vertices.spec_get(half_edge.end_vertex).global_form,
        )
    }

    /// The global forms of the start and the end vertex of `half_edge`
    pub open spec fn global_vertices_of(&self, half_edge: HalfEdge) -> (Handle, Handle) {
        (
            self.surface_vertices.spec_get(half_edge.start_vertex).global_form,
            self.surface_vertices.spec_get(half_edge.end_vertex).global_form,
        )
    }
}

/// The errors of the global vertex identity check
pub open spec fn global_vertex_identity_errors(objects: Objects, half_edge: HalfEdge) -> Seq<HalfEdgeValidationError> {
    let from_half_edge = objects.global_vertices_of(half_edge).0;
    let from_global_form = normalized(objects.global_edges.spec_get(half_edge.global_form).vertices());
    if from_half_edge == from_global_form.0 || from_half_edge == from_global_form.1 {
        Seq::empty()
    } else {
        seq![HalfEdgeValidationError::GlobalVertexMismatch {
            global_vertex_from_half_edge: from_half_edge,
            global_vertex_a_from_global_form: from_global_form.0,
            global_vertex_b_from_global_form: from_global_form.1,
            half_edge,
        }]
    }
}

/// The errors of the check of the curve coordinates
pub open spec fn vertex_coincidence_errors(half_edge: HalfEdge, config: ValidationConfig) -> Seq<HalfEdgeValidationError> {
    let distance = distance_1d(half_edge.back, half_edge.front);
    if distance < config.distinct_min_distance {
        seq![HalfEdgeValidationError::VerticesAreCoincident {
            back_position: half_edge.back,
            front_position: half_edge.front,
            distance: distance as u32,
            half_edge,
        }]
    } else {
        Seq::empty()
    }
}

/// Whether two distinct global vertices lie closer than the minimum distance
pub open spec fn too_close(objects: Objects, a: Handle, b: Handle, config: ValidationConfig) -> bool {
    &&& a != b
    &&& distance_squared(objects.global_vertices.spec_get(a).position, objects.global_vertices.spec_get(b).position)
        < config.distinct_min_distance * config.distinct_min_distance
}

/// The errors of the check of the global vertices' positions
pub open spec fn global_vertex_distance_errors(objects: Objects, half_edge: HalfEdge, config: ValidationConfig) -> Seq<HalfEdgeValidationError> {
    let (a, b) = objects.global_vertices_of(half_edge);
    if too_close(objects, a, b, config) {
        seq![HalfEdgeValidationError::GlobalVerticesAreCoincident {
            global_vertex_a: a,
            global_vertex_b: b,
            half_edge,
        }]
    } else {
        Seq::empty()
    }
}

/// All errors of a half-edge, in the order the checks run
pub open spec fn half_edge_errors(objects: Objects, half_edge: HalfEdge, config: ValidationConfig) -> Seq<HalfEdgeValidationError> {
    global_vertex_identity_errors(objects, half_edge) + vertex_coincidence_errors(half_edge, config)
        + global_vertex_distance_errors(objects, half_edge, config)
}

/// The errors of a half-edge, as general validation errors
pub open spec fn half_edge_validation_errors(objects: Objects, half_edge: HalfEdge, config: ValidationConfig) -> Seq<ValidationError> {
    half_edge_errors(objects, half_edge, config).map_values(|e| ValidationError::HalfEdge(e))
}

/// The squared distance of two points, computed without overflow
fn squared_distance(a: Point3, b: Point3) -> (r: u128)
    ensures
        r == distance_squared(a, b),
{
    let dx: i128 = a.x as i128 - b.x as i128;
    let dy: i128 = a.y as i128 - b.y as i128;
    let dz: i128 = a.z as i128 - b.z as i128;
    assert(dx * dx <= 0x1_0000_0000_0000_0000) by (nonlinear_arith)
        requires
            -0x1_0000_0000 <= dx <= 0x1_0000_0000,
    ;
    assert(dy * dy <= 0x1_0000_0000_0000_0000) by (nonlinear_arith)
        requires
            -0x1_0000_0000 <= dy <= 0x1_0000_0000,
    ;
    assert(dz * dz <= 0x1_0000_0000_0000_0000) by (nonlinear_arith)
        requires
            -0x1_0000_0000 <= dz <= 0x1_0000_0000,
    ;
    assert(dx * dx >= 0 && dy * dy >= 0 && dz * dz >= 0) by (nonlinear_arith);
    (dx * dx + dy * dy + dz * dz) as u128
}

impl HalfEdgeValidationError {
    fn check_global_vertex_identity(
        objects: &Objects,
        half_edge: &HalfEdge,
        errors: &mut Vec<ValidationError>,
    )
        requires
            objects.resolves_half_edge(*half_edge),
        ensures
            final(errors)@ == old(errors)@ + global_vertex_identity_errors(*objects, *half_edge).map_values(
                |e| ValidationError::HalfEdge(e),
            ),
    {
        let start: &SurfaceVertex = objects.surface_vertices.get(half_edge.start_vertex);
        let global_vertex_from_half_edge = start.global_form;
        let global_edge: &GlobalEdge = objects.global_edges.get(half_edge.global_form);
        let (a, b) = global_edge.vertices_in_normalized_order();
        if global_vertex_from_half_edge != a && global_vertex_from_half_edge != b {
            errors.push(
                ValidationError::HalfEdge(
                    HalfEdgeValidationError::GlobalVertexMismatch {
                        global_vertex_from_half_edge,
                        global_vertex_a_from_global_form: a,
                        global_vertex_b_from_global_form: b,
                        half_edge: *half_edge,
                    },
                ),
            );
        }
        proof {
            let added = global_vertex_identity_errors(*objects, *half_edge).map_values(
                |e| ValidationError::HalfEdge(e),
            );
            assert(final(errors)@ =~= old(errors)@ + added);
        }
    }

    fn check_vertex_coincidence(
        half_edge: &HalfEdge,
        config: &ValidationConfig,
        errors: &mut Vec<ValidationError>,
    )
        ensures
            final(errors)@ == old(errors)@ + vertex_coincidence_errors(*half_edge, *config).map_values(
                |e| ValidationError::HalfEdge(e),
            ),
    {
        let back_position = half_edge.back;
        let front_position = half_edge.front;
        let distance: i64 = if back_position >= front_position {
            back_position as i64 - front_position as i64
        } else {
            front_position as i64 - back_position as i64
        };
        if distance < config.distinct_min_distance as i64 {
            errors.push(
                ValidationError::HalfEdge(
                    HalfEdgeValidationError::VerticesAreCoincident {
                        back_position,
                        front_position,
                        distance: distance as u32,
                        half_edge: *half_edge,
                    },
                ),
            );
        }
        proof {
            let added = vertex_coincidence_errors(*half_edge, *config).map_values(
                |e| ValidationError::HalfEdge(e),
            );
            assert(final(errors)@ =~= old(errors)@ + added);
        }
    }

    fn check_global_vertex_distance(
        objects: &Objects,
        half_edge: &HalfEdge,
        config: &ValidationConfig,
        errors: &mut Vec<ValidationError>,
    )
        requires
            objects.resolves_half_edge(*half_edge),
        ensures
            final(errors)@ == old(errors)@ + global_vertex_distance_errors(*objects, *half_edge, *config).map_values(
                |e| ValidationError::HalfEdge(e),
            ),
    {
        let a = objects.surface_vertices.get(half_edge.start_vertex).global_form;
        let b = objects.surface_vertices.get(half_edge.end_vertex).global_form;
        if a != b {
            let pa = objects.global_vertices.get(a).position;
            let pb = objects.global_vertices.get(b).position;
            let d = squared_distance(pa, pb);
            let t = config.distinct_min_distance as u128;
            assert(t * t <= 0x1_0000_0000_0000_0000) by (nonlinear_arith)
                requires
                    t <= 0xffff_ffff,
            ;
            if d < t * t {
                errors.push(
                    ValidationError::HalfEdge(
                        HalfEdgeValidationError::GlobalVerticesAreCoincident {
                            global_vertex_a: a,
                            global_vertex_b: b,
                            half_edge: *half_edge,
                        },
                    ),
                );
            }
        }
        proof {
            let added = global_vertex_distance_errors(*objects, *half_edge, *config).map_values(
                |e| ValidationError::HalfEdge(e),
            );
            assert(final(errors)@ =~= old(errors)@ + added);
        }
    }
}

impl HalfEdge {
    /// Run every check of the half-edge, and append each failure to `errors`
    pub fn validate_with_config(
        &self,
        objects: &Objects,
        config: &ValidationConfig,
        errors: &mut Vec<ValidationError>,
    )
        requires
            objects.resolves_half_edge(*self),
        ensures
            final(errors)@ == old(errors)@ + half_edge_validation_errors(*objects, *self, *config),
    {
        HalfEdgeValidationError::check_global_vertex_identity(objects, self, errors);
        HalfEdgeValidationError::check_vertex_coincidence(self, config, errors);
        HalfEdgeValidationError::check_global_vertex_distance(objects, self, config, errors);
        proof {
            let f = |e| ValidationError::HalfEdge(e);
            let s1 = global_vertex_identity_errors(*objects, *self);
            let s2 = vertex_coincidence_errors(*self, *config);
            let s3 = global_vertex_distance_errors(*objects, *self, *config);
            assert((s1 + s2 + s3).map_values(f) =~= s1.map_values(f) + s2.map_values(f) + s3.map_values(f));
            assert(final(errors)@ =~= old(errors)@ + half_edge_validation_errors(*objects, *self, *config));
        }
    }

    /// All errors of the half-edge
    pub fn validate(&self, objects: &Objects, config: &ValidationConfig) -> (r: Vec<ValidationError>)
        requires
            objects.resolves_half_edge(*self),
        ensures
            r@ == half_edge_validation_errors(*objects, *self, *config),
    {
        let mut errors: Vec<ValidationError> = Vec::new();
        self.validate_with_config(objects, config, &mut errors);
        proof {
            assert(errors@ =~= half_edge_validation_errors(*objects, *self, *config));
        }
        errors
    }

    /// The first error of the half-edge, if it has any
    pub fn validate_and_return_first_error(&self, objects: &Objects, config: &ValidationConfig) -> (r: Result<(), ValidationError>)
        requires
            objects.resolves_half_edge(*self),
        ensures
            half_edge_validation_errors(*objects, *self, *config).len() == 0 ==> r is Ok,
            half_edge_validation_errors(*objects, *self, *config).len() > 0 ==> r == Err::<(), ValidationError>(
                half_edge_validation_errors(*objects, *self, *config)[0],
            ),
    {
        let errors = self.validate(objects, config);
        if errors.len() == 0 {
            Ok(())
        } else {
            Err(errors[0])
        }
    }
}

impl Objects {
    /// Every half-edge of `half_edges`, and what its validation reads, is in
    /// its store
    pub open spec fn resolves_cycle_half_edges(&self, half_edges: Seq<Handle>) -> bool {
        forall|i: int|
            0 <= i < half_edges.len() ==> self.half_edges.contains(#[trigger] half_edges[i])
                && self.resolves_half_edge(self.half_edges.spec_get(half_edges[i]))
    }
}

/// The errors of the first `k` half-edges of a cycle, in order
pub open spec fn cycle_half_edge_errors(objects: Objects, half_edges: Seq<Handle>, config: ValidationConfig, k: nat) -> Seq<ValidationError>
    decreases k,
{
    if k == 0 {
        Seq::empty()
    } else {
        cycle_half_edge_errors(objects, half_edges, config, (k - 1) as nat) + half_edge_validation_errors(
            objects,
            objects.half_edges.spec_get(half_edges[k - 1]),
            config,
        )
    }
}

/// The connection error of the half-edge at `i` and the one after it, if any
pub open spec fn connection_errors_at(objects: Objects, half_edges: Seq<Handle>, i: int) -> Seq<ValidationError> {
    let end = objects.global_vertices_of(objects.half_edges.spec_get(half_edges[i])).1;
    let next = half_edges[(i + 1) % half_edges.len() as int];
    let start = objects.global_vertices_of(objects.half_edges.spec_get(next)).0;
    if end == start {
        Seq::empty()
    } else {
        seq![ValidationError::Cycle(CycleValidationError::HalfEdgesDisconnected {
            index: i as usize,
            end_of_half_edge: end,
            start_of_next: start,
        })]
    }
}

/// The connection errors of the first `k` half-edges of a cycle, in order
pub open spec fn cycle_connection_errors(objects: Objects, half_edges: Seq<Handle>, k: nat) -> Seq<ValidationError>
    decreases k,
{
    if k == 0 {
        Seq::empty()
    } else {
        cycle_connection_errors(objects, half_edges, (k - 1) as nat) + connection_errors_at(
            objects,
            half_edges,
            k - 1,
        )
    }
}

/// All errors of a cycle: those of each half-edge, then those of each
/// connection between a half-edge and the next
pub open spec fn cycle_errors(objects: Objects, half_edges: Seq<Handle>, config: ValidationConfig) -> Seq<ValidationError> {
    cycle_half_edge_errors(objects, half_edges, config, half_edges.len())
        + cycle_connection_errors(objects, half_edges, half_edges.len())
}

impl Cycle {
    /// Run every check of the cycle and its half-edges, and append each
    /// failure to `errors`
    pub fn validate_with_config(
        &self,
        objects: &Objects,
        config: &ValidationConfig,
        errors: &mut Vec<ValidationError>,
    )
        requires
            objects.resolves_cycle_half_edges(self.half_edges@),
        ensures
            final(errors)@ == old(errors)@ + cycle_errors(*objects, self.half_edges@, *config),
    {
        let n = self.half_edges.len();
        let mut i: usize = 0;
        while i < n
            invariant
                n == self.half_edges@.len(),
                i <= n,
                objects.resolves_cycle_half_edges(self.half_edges@),
                errors@ == old(errors)@ + cycle_half_edge_errors(*objects, self.half_edges@, *config, i as nat),
            decreases n - i,
        {
            let half_edge: HalfEdge = *objects.half_edges.get(self.half_edges[i]);
            assert(objects.half_edges.contains(self.half_edges@[i as int]));
            half_edge.validate_with_config(objects, config, errors);
            proof {
                assert(errors@ =~= old(errors)@ + cycle_half_edge_errors(
                    *objects,
                    self.half_edges@,
                    *config,
                    (i + 1) as nat,
                ));
            }
            i = i + 1;
        }
        let ghost after_half_edges = errors@;
        let mut i: usize = 0;
        while i < n
            invariant
                n == self.half_edges@.len(),
                i <= n,
                objects.resolves_cycle_half_edges(self.half_edges@),
                errors@ == after_half_edges + cycle_connection_errors(*objects, self.half_edges@, i as nat),
            decreases n - i,
        {
            let next_index = if i + 1 == n {
                0
            } else {
                i + 1
            };
            proof {
                if i + 1 == n {
                    vstd::arithmetic::div_mod::lemma_mod_self_0(n as int);
                } else {
                    vstd::arithmetic::div_mod::lemma_small_mod((i + 1) as nat, n as nat);
                }
            }
            assert(next_index == (i as int + 1) % (n as int));
            assert(objects.half_edges.contains(self.half_edges@[i as int]));
            assert(objects.half_edges.contains(self.half_edges@[next_index as int]));
            let half_edge: &HalfEdge = objects.half_edges.get(self.half_edges[i]);
            let next: &HalfEdge = objects.half_edges.get(self.half_edges[next_index]);
            let end = objects.surface_vertices.get(half_edge.end_vertex).global_form;
            let start = objects.surface_vertices.get(next.start_vertex).global_form;
            if end != start {
                errors.push(
                    ValidationError::Cycle(
                        CycleValidationError::HalfEdgesDisconnected {
                            index: i,
                            end_of_half_edge: end,
                            start_of_next: start,
                        },
                    ),
                );
            }
            proof {
                assert(errors@ =~= after_half_edges + cycle_connection_errors(
                    *objects,
                    self.half_edges@,
                    (i + 1) as nat,
                ));
            }
            i = i + 1;
        }
        proof {
            assert(errors@ =~= old(errors)@ + cycle_errors(*objects, self.half_edges@, *config));
        }
    }

    /// All errors of the cycle
    pub fn validate(&self, objects: &Objects, config: &ValidationConfig) -> (r: Vec<ValidationError>)
        requires
            objects.resolves_cycle_half_edges(self.half_edges@),
        ensures
            r@ == cycle_errors(*objects, self.half_edges@, *config),
    {
        let mut errors: Vec<ValidationError> = Vec::new();
        self.validate_with_config(objects, config, &mut errors);
        proof {
            assert(errors@ =~= cycle_errors(*objects, self.half_edges@, *config));
        }
        errors
    }

    /// The first error of the cycle, if it has any
    pub fn validate_and_return_first_error(&self, objects: &Objects, config: &ValidationConfig) -> (r: Result<(), ValidationError>)
        requires
            objects.resolves_cycle_half_edges(self.half_edges@),
        ensures
            cycle_errors(*objects, self.half_edges@, *config).len() == 0 ==> r is Ok,
            cycle_errors(*objects, self.half_edges@, *config).len() > 0 ==> r == Err::<(), ValidationError>(
                cycle_errors(*objects, self.half_edges@, *config)[0],
            ),
    {
        let errors = self.validate(objects, config);
        if errors.len() == 0 {
            Ok(())
        } else {
            Err(errors[0])
        }
    }
}

/// Two distinct global vertices of a half-edge, one at the origin and one at
/// distance `eps` along the x axis, are reported as coincident if and only if
/// `eps` is below the minimum distance.
pub proof fn lemma_min_distance(objects: Objects, half_edge: HalfEdge, config: ValidationConfig, eps: i32)
    requires
        objects.resolves_half_edge(half_edge),
        objects.global_vertices_of(half_edge).0 != objects.global_vertices_of(half_edge).1,
        objects.global_vertices.spec_get(objects.global_vertices_of(half_edge).0).position
            == (Point3 { x: 0, y: 0, z: 0 }),
        objects.global_vertices.spec_get(objects.global_vertices_of(half_edge).1).position
            == (Point3 { x: eps, y: 0, z: 0 }),
        eps >= 0,
    ensures
        half_edge_errors(objects, half_edge, config).contains(
            HalfEdgeValidationError::GlobalVerticesAreCoincident {
                global_vertex_a: objects.global_vertices_of(half_edge).0,
                global_vertex_b: objects.global_vertices_of(half_edge).1,
                half_edge,
            },
        ) <==> eps < config.distinct_min_distance,
{
    let t = config.distinct_min_distance as int;
    let e = eps as int;
    let (a, b) = objects.global_vertices_of(half_edge);
    let pa = objects.global_vertices.spec_get(a).position;
    let pb = objects.global_vertices.spec_get(b).position;
    assert(pa.x == 0 && pa.y == 0 && pa.z == 0 && pb.x == e && pb.y == 0 && pb.z == 0);
    assert(distance_squared(pa, pb) == e * e) by (nonlinear_arith)
        requires
            pa.x == 0 && pa.y == 0 && pa.z == 0 && pb.x == e && pb.y == 0 && pb.z == 0,
    ;
    assert(e * e < t * t <==> e < t) by (nonlinear_arith)
        requires
            e >= 0,
            t >= 0,
    ;
    let err = HalfEdgeValidationError::GlobalVerticesAreCoincident {
        global_vertex_a: a,
        global_vertex_b: b,
        half_edge,
    };
    let s1 = global_vertex_identity_errors(objects, half_edge);
    let s2 = vertex_coincidence_errors(half_edge, config);
    let s3 = global_vertex_distance_errors(objects, half_edge, config);
    let all = half_edge_errors(objects, half_edge, config);
    if e < t {
        assert(all[s1.len() + s2.len() as int] == err);
    } else {
        assert(s3.len() == 0);
        assert forall|i: int| 0 <= i < all.len() implies all[i] != err by {
            if i < s1.len() {
                assert(all[i] == s1[i]);
            } else {
                assert(all[i] == s2[i - s1.len()]);
            }
        }
    }
}

/// A half-edge is reported for a global vertex mismatch if and only if the
/// global form of its start vertex is neither vertex of its global edge, by
/// identity; and it passes validation if and only if, beyond that, its curve
/// coordinates and its global vertices are far enough apart.
pub proof fn lemma_global_vertex_mismatch(objects: Objects, half_edge: HalfEdge, config: ValidationConfig)
    requires
        objects.resolves_half_edge(half_edge),
    ensures
        ({
            let from_half_edge = objects.global_vertices_of(half_edge).0;
            let global_edge = objects.global_edges.spec_get(half_edge.global_form);
            let shared = from_half_edge == global_edge.vertex_a || from_half_edge == global_edge.vertex_b;
            let errors = half_edge_errors(objects, half_edge, config);
            &&& (exists|i: int| 0 <= i < errors.len() && errors[i] is GlobalVertexMismatch) <==> !shared
            &&& errors.len() == 0 <==> (shared && distance_1d(half_edge.back, half_edge.front)
                >= config.distinct_min_distance && !too_close(
                objects,
                objects.global_vertices_of(half_edge).0,
                objects.global_vertices_of(half_edge).1,
                config,
            ))
        }),
{
    let s1 = global_vertex_identity_errors(objects, half_edge);
    let s2 = vertex_coincidence_errors(half_edge, config);
    let s3 = global_vertex_distance_errors(objects, half_edge, config);
    let all = half_edge_errors(objects, half_edge, config);
    if s1.len() > 0 {
        assert(all[0] == s1[0]);
    } else {
        assert forall|i: int| 0 <= i < all.len() implies !(all[i] is GlobalVertexMismatch) by {
            if i < s2.len() {
                assert(all[i] == s2[i]);
            } else {
                assert(all[i] == s3[i - s2.len()]);
            }
        }
    }
}

} // verus!

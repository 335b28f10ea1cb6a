//! The draw selector: each frame, for each visible entity drawn with the
//! bubbles material, queue a draw of the quad when its pair's binding set is
//! ready, skip it until a later frame when it is not, and report it when the
//! mesh or the material it names is gone. One entity's outcome never stops
//! the others.
use vstd::prelude::*;

use crate::cache::{lookup_spec, Lookup, MeshUpload, PreparedBindingSet, ResourceCache};
use crate::material::Bubbles;
use crate::quad::QUAD_VERTEX_COUNT;

verus! {

/// A visible entity with the bubbles material, in the host's back-to-front
/// order, with what the host's stores hold for its mesh and material.
#[derive(Clone, Copy, Debug, PartialEq, Eq, Structural)]
pub struct VisibleItem {
    pub entity: u64,
    pub mesh: u64,
    pub material: u64,
    /// The mesh's uploaded buffer; `None` when the store no longer has it.
    pub upload: Option<MeshUpload>,
    /// The material's value; `None` when the store no longer has it.
    pub value: Option<Bubbles>,
}

/// One draw call of the quad.
#[derive(Clone, Copy, Debug, PartialEq, Eq, Structural)]
pub struct DrawCall {
    pub entity: u64,
    /// Bound as the pipeline's vertex buffer.
    pub quad_buffer: u64,
    /// Bound as the material's bind group.
    pub bind_group: u64,
    /// Vertices `vertex_start..vertex_end` of the quad.
    pub vertex_start: u32,
    pub vertex_end: u32,
    /// Instances `instance_start..instance_end`.
    pub instance_start: u32,
    pub instance_end: u32,
}

/// Which store lost the resource an entity names.
#[derive(Clone, Copy, Debug, PartialEq, Eq, Structural)]
pub enum MissingKind {
    Mesh,
    Material,
}

/// What the selector did with one entity.
#[derive(Clone, Copy, Debug, PartialEq, Eq, Structural)]
pub enum DrawDecision {
    /// Its binding set is ready: draw it.
    Queued(DrawCall),
    /// Its binding set is not ready yet: nothing drawn this frame.
    Skipped,
    /// It names a mesh or material that is gone: nothing drawn, to be logged.
    MissingResource(MissingKind),
}

/// The draw call for an entity whose set is `set`: the whole quad, once.
pub open spec fn render_spec(entity: u64, set: PreparedBindingSet) -> DrawCall {
    DrawCall {
        entity,
        quad_buffer: set.gpu.quad_buffer,
        bind_group: set.gpu.bind_group,
        vertex_start: 0,
        vertex_end: QUAD_VERTEX_COUNT,
        instance_start: 0,
        instance_end: 1,
    }
}

/// What the selector decides for one entity, given the cache's contents.
pub open spec fn select_spec(sets: Map<u128, PreparedBindingSet>, item: VisibleItem) -> DrawDecision {
    match (item.upload, item.value) {
        (None, _) => DrawDecision::MissingResource(MissingKind::Mesh),
        (_, None) => DrawDecision::MissingResource(MissingKind::Material),
        (Some(u), Some(v)) => match lookup_spec(sets, item.mesh, item.material, u, v) {
            Lookup::Ready(s) => DrawDecision::Queued(render_spec(item.entity, s)),
            Lookup::NotReady => DrawDecision::Skipped,
        },
    }
}

/// The render command that draws a bubbles entity.
pub struct DrawBubblesMaterial;

impl DrawBubblesMaterial {
    /// Binds the set's quad buffer and bind group and draws the six quad
    /// vertices as one instance. The mesh's own vertices are read by the
    /// shader; how many there are does not change the draw.
    pub fn render(entity: u64, set: &PreparedBindingSet) -> (r: DrawCall)
        ensures
            r == render_spec(entity, *set),
            r.vertex_end - r.vertex_start == QUAD_VERTEX_COUNT,
    {
        DrawCall {
            entity,
            quad_buffer: set.gpu.quad_buffer,
            bind_group: set.gpu.bind_group,
            vertex_start: 0,
            vertex_end: QUAD_VERTEX_COUNT,
            instance_start: 0,
            instance_end: 1,
        }
    }
}

/// Decides for one visible entity.
pub fn select_draw(cache: &ResourceCache, item: &VisibleItem) -> (r: DrawDecision)
    ensures
        r == select_spec(cache@, *item),
{
    match (item.upload, item.value) {
        (None, _) => DrawDecision::MissingResource(MissingKind::Mesh),
        (_, None) => DrawDecision::MissingResource(MissingKind::Material),
        (Some(u), Some(v)) => match cache.get_or_retry(item.mesh, item.material, &u, &v) {
            Lookup::Ready(s) => DrawDecision::Queued(DrawBubblesMaterial::render(item.entity, &s)),
            Lookup::NotReady => DrawDecision::Skipped,
        },
    }
}

/// Decides for each visible entity, in the order given (the host's
/// back-to-front transparency order), one decision per entity.
pub fn queue_draw_bubbles(cache: &ResourceCache, items: &Vec<VisibleItem>) -> (r: Vec<DrawDecision>)
    ensures
        r@.len() == items@.len(),
        forall|i: int| 0 <= i < items@.len() ==> #[trigger] r@[i] == select_spec(cache@, items@[i]),
{
    let mut r: Vec<DrawDecision> = Vec::new();
    let mut i: usize = 0;
    while i < items.len()
        invariant
            0 <= i <= items.len(),
            r@.len() == i,
            forall|j: int| 0 <= j < i ==> #[trigger] r@[j] == select_spec(cache@, items@[j]),
        decreases items.len() - i,
    {
        let d = select_draw(cache, &items[i]);
        r.push(d);
        i = i + 1;
    }
    r
}

} // verus!

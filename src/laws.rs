//! What holds of the cache and the selector across frames and calls, stated
//! over the same spec functions the operations' contracts use.
use vstd::prelude::*;

use crate::cache::{
    lemma_pair_key_injective, lookup_spec, pair_key, plan_spec, preparation_spec, GpuObjects,
    Lookup, MeshUpload, PreparedBindingSet, Preparation, ResourceCache,
};
use crate::extract::{version_after, MeshVersion};
use crate::draw::{render_spec, select_spec, DrawDecision, VisibleItem};
use crate::layout::{LayoutMismatch, VERTEX_RECORD_SIZE};
use crate::material::Bubbles;
use crate::quad::QUAD_VERTEX_COUNT;

verus! {

/// A pair the cache has never seen is not ready, whatever the host reports.
/// The prepare stage waits until both the mesh upload and the material are
/// there, then asks for the set to be built. Once that set is stored, every
/// query with the same mesh generation and material value yields that very
/// set, and the prepare stage finds it current and builds nothing more.
/// `after` is `before` once `store` has put in the set built from the plan.
pub proof fn law_ready_once_prepared(
    before: &ResourceCache,
    after: &ResourceCache,
    mesh: u64,
    material: u64,
    upload: MeshUpload,
    value: Bubbles,
    gpu: GpuObjects,
)
    requires
        before.wf(),
        !before@.contains_key(pair_key(mesh, material)),
        upload.vertex_stride == VERTEX_RECORD_SIZE,
        after@ == before@.insert(
            pair_key(mesh, material),
            PreparedBindingSet { plan: plan_spec(mesh, material, upload, value), gpu },
        ),
    ensures
        lookup_spec(before@, mesh, material, upload, value) == Lookup::NotReady,
        preparation_spec(before@, mesh, material, None, Some(value)) == Preparation::NotReady,
        preparation_spec(before@, mesh, material, Some(upload), None) == Preparation::NotReady,
        preparation_spec(before@, mesh, material, Some(upload), Some(value))
            == Preparation::Build(plan_spec(mesh, material, upload, value)),
        lookup_spec(after@, mesh, material, upload, value) == Lookup::Ready(
            PreparedBindingSet { plan: plan_spec(mesh, material, upload, value), gpu },
        ),
        preparation_spec(after@, mesh, material, Some(upload), Some(value))
            == Preparation::Current,
{
}

/// When a mesh's content generation changes, the pair's old set is never
/// handed out again: queries are not ready until the prepare stage has
/// rebuilt it, and the rebuilt set's storage view is the new buffer, at the
/// new generation, with the new record count. Only that pair's entry is
/// replaced; every other entry stays as it was.
/// `after` is `before` once `store` has put in the rebuilt set.
pub proof fn law_rebuild_on_new_generation(
    before: &ResourceCache,
    after: &ResourceCache,
    mesh: u64,
    material: u64,
    upload: MeshUpload,
    value: Bubbles,
    gpu: GpuObjects,
)
    requires
        before.wf(),
        before@.contains_key(pair_key(mesh, material)),
        before@[pair_key(mesh, material)].plan.generation != upload.generation,
        upload.vertex_stride == VERTEX_RECORD_SIZE,
        after@ == before@.insert(
            pair_key(mesh, material),
            PreparedBindingSet { plan: plan_spec(mesh, material, upload, value), gpu },
        ),
    ensures
        lookup_spec(before@, mesh, material, upload, value) == Lookup::NotReady,
        preparation_spec(before@, mesh, material, Some(upload), Some(value))
            == Preparation::Build(plan_spec(mesh, material, upload, value)),
        lookup_spec(after@, mesh, material, upload, value) matches Lookup::Ready(s) && s.plan.generation
            == upload.generation && s.plan.storage.buffer == upload.buffer
            && s.plan.storage.record_count == upload.vertex_count,
        forall|k: u128|
            k != pair_key(mesh, material) ==> (#[trigger] after@.contains_key(k)
                == before@.contains_key(k) && (before@.contains_key(k) ==> after@[k]
                == before@[k])),
{
}

/// At most one set is held per (mesh, material) pair: two entries of a
/// well-formed cache that belong to the same pair are the same entry. So two
/// queries for a pair in one frame yield the same set, the one held.
pub proof fn law_one_set_per_pair(
    cache: &ResourceCache,
    mesh: u64,
    material: u64,
    upload: MeshUpload,
    value: Bubbles,
)
    requires
        cache.wf(),
    ensures
        forall|k1: u128, k2: u128|
            #![trigger cache@[k1], cache@[k2]]
            cache@.contains_key(k1) && cache@.contains_key(k2) && cache@[k1].plan.mesh
                == cache@[k2].plan.mesh && cache@[k1].plan.material == cache@[k2].plan.material
                ==> k1 == k2,
        lookup_spec(cache@, mesh, material, upload, value) matches Lookup::Ready(s) ==> s
            == cache@[pair_key(mesh, material)],
{
    cache.lemma_wf();
    let sets = cache@;
    assert forall|k1: u128, k2: u128|
        #![trigger sets[k1], sets[k2]]
        sets.contains_key(k1) && sets.contains_key(k2) && sets[k1].plan.mesh == sets[k2].plan.mesh
            && sets[k1].plan.material == sets[k2].plan.material implies k1 == k2 by {
        lemma_pair_key_injective(
            sets[k1].plan.mesh,
            sets[k1].plan.material,
            sets[k2].plan.mesh,
            sets[k2].plan.material,
        );
    }
}

/// Every set a well-formed cache holds, and so every set a query yields,
/// reads the mesh buffer with the vertex record size as its element stride;
/// a mesh buffer declared with another stride is refused by the prepare
/// stage, and no set is built for it.
pub proof fn law_storage_stride_is_record_size(
    cache: &ResourceCache,
    mesh: u64,
    material: u64,
    upload: MeshUpload,
    value: Bubbles,
)
    requires
        cache.wf(),
    ensures
        forall|k: u128| #[trigger]
            cache@.contains_key(k) ==> cache@[k].plan.storage.element_stride == VERTEX_RECORD_SIZE,
        lookup_spec(cache@, mesh, material, upload, value) matches Lookup::Ready(s)
            ==> s.plan.storage.element_stride == VERTEX_RECORD_SIZE,
        upload.vertex_stride != VERTEX_RECORD_SIZE ==> preparation_spec(
            cache@,
            mesh,
            material,
            Some(upload),
            Some(value),
        ) == Preparation::Mismatch(
            LayoutMismatch { declared: upload.vertex_stride, expected: VERTEX_RECORD_SIZE },
        ),
{
    cache.lemma_wf();
    let sets = cache@;
    assert forall|k: u128| #[trigger]
        sets.contains_key(k) implies sets[k].plan.storage.element_stride == VERTEX_RECORD_SIZE by {
        assert(sets[k] == sets[k]);
    }
    if lookup_spec(sets, mesh, material, upload, value) is Ready {
        assert(sets[pair_key(mesh, material)] == sets[pair_key(mesh, material)]);
    }
}

/// Every queued draw covers the six quad vertices once, whatever the size of
/// the mesh its set reads: two sets that differ only in their meshes' vertex
/// counts are drawn alike.
pub proof fn law_six_vertices_per_draw(
    cache: &ResourceCache,
    item: VisibleItem,
    entity: u64,
    a: PreparedBindingSet,
    b: PreparedBindingSet,
)
    requires
        a.gpu == b.gpu,
    ensures
        render_spec(entity, a).vertex_start == 0,
        render_spec(entity, a).vertex_end == QUAD_VERTEX_COUNT,
        render_spec(entity, a).instance_end - render_spec(entity, a).instance_start == 1,
        render_spec(entity, a) == render_spec(entity, b),
        select_spec(cache@, item) matches DrawDecision::Queued(c) ==> c.vertex_end - c.vertex_start
            == QUAD_VERTEX_COUNT,
{
}

/// A mesh whose content is taken again gets a generation other than the one
/// it had, and is present; so the set cached for its old content is no
/// longer current (see `law_rebuild_on_new_generation`).
pub proof fn law_changed_mesh_gets_new_generation(
    prev: Map<u64, MeshVersion>,
    changed: Seq<u64>,
    removed: Seq<u64>,
    h: u64,
)
    requires
        prev.contains_key(h),
        changed.contains(h),
    ensures
        version_after(prev, changed, removed, h) matches Some(v) && v.present && v.generation
            != prev[h].generation,
{
}

} // verus!

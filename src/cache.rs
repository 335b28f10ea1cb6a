//! The resource cache: at most one prepared binding set per (mesh, material)
//! pair, built once both sides are ready and rebuilt when either changes.
//!
//! Building a set takes GPU objects that only the host can create, so the
//! cache works in two steps. `prepare` says, from what the host reports of the
//! mesh upload and the material, whether the pair is not ready, already
//! current, to be built (with the plan to build it from), or refused. The host
//! creates the GPU objects of a plan and hands them to `store`. `get_or_retry`
//! then yields the set only while it is current for the mesh's generation and
//! the material's value; a stale set is never handed out. Once no visible
//! entity uses a pair, `retain_visible` drops its set and hands it back, so
//! that the host can free what it created.
use vstd::prelude::*;
use vstd::arithmetic::div_mod::lemma_fundamental_div_mod_converse;

use std::collections::HashMap;

use crate::layout::{check_stride, LayoutMismatch, VERTEX_RECORD_SIZE};
use crate::material::Bubbles;

verus! {

broadcast use vstd::std_specs::hash::group_hash_axioms;

/// What the host reports of an uploaded mesh vertex buffer.
#[derive(Clone, Copy, Debug, PartialEq, Eq, Structural)]
pub struct MeshUpload {
    /// Handle of the GPU buffer holding the vertex records.
    pub buffer: u64,
    /// Bytes from one vertex record to the next.
    pub vertex_stride: u64,
    /// Number of vertex records in the buffer.
    pub vertex_count: u64,
    /// Bumped by the host each time the mesh's content changes.
    pub generation: u64,
}

/// The mesh buffer read back as a read-only storage array.
#[derive(Clone, Copy, Debug, PartialEq, Eq, Structural)]
pub struct StorageView {
    pub buffer: u64,
    pub element_stride: u64,
    pub record_count: u64,
}

/// Everything a binding set is built from.
#[derive(Clone, Copy, Debug, PartialEq, Eq, Structural)]
pub struct BindingPlan {
    pub mesh: u64,
    pub material: u64,
    /// The mesh generation the storage view was taken at.
    pub generation: u64,
    /// The material's uniform: the bubble radius as float bits.
    pub bubble_radius: u32,
    pub storage: StorageView,
}

/// Handles of the GPU objects the host created for a plan.
#[derive(Clone, Copy, Debug, PartialEq, Eq, Structural)]
pub struct GpuObjects {
    pub bind_group: u64,
    pub uniform_buffer: u64,
    pub quad_buffer: u64,
}

/// A complete binding set: the plan and the GPU objects built from it.
#[derive(Clone, Copy, Debug, PartialEq, Eq, Structural)]
pub struct PreparedBindingSet {
    pub plan: BindingPlan,
    pub gpu: GpuObjects,
}

/// What the prepare stage is to do for a pair.
#[derive(Clone, Copy, Debug, PartialEq, Eq, Structural)]
pub enum Preparation {
    /// The mesh upload or the material is not there yet: try next frame.
    NotReady,
    /// The cached set is current: nothing to do.
    Current,
    /// Create the GPU objects for this plan and store them.
    Build(BindingPlan),
    /// The mesh buffer's stride is not the vertex record size.
    Mismatch(LayoutMismatch),
}

/// The answer to a query for a pair's set.
#[derive(Clone, Copy, Debug, PartialEq, Eq, Structural)]
pub enum Lookup {
    Ready(PreparedBindingSet),
    NotReady,
}

/// 2 to the 64th power: the keys of the cache put the mesh handle above it.
pub open spec fn key_base() -> int {
    0x1_0000_0000_0000_0000
}

/// The cache key of a pair: both handles in one 128-bit number.
pub open spec fn pair_key(mesh: u64, material: u64) -> u128 {
    (mesh * key_base() + material) as u128
}

/// Two pairs share a key only when they are the same pair.
pub proof fn lemma_pair_key_injective(m1: u64, a1: u64, m2: u64, a2: u64)
    ensures
        pair_key(m1, a1) == pair_key(m2, a2) <==> (m1 == m2 && a1 == a2),
{
    assert(m1 * key_base() + a1 < 0x1_0000_0000_0000_0000_0000_0000_0000_0000) by (nonlinear_arith)
        requires
            m1 < key_base(),
            a1 < key_base(),
            key_base() == 0x1_0000_0000_0000_0000,
    ;
    assert(m2 * key_base() + a2 < 0x1_0000_0000_0000_0000_0000_0000_0000_0000) by (nonlinear_arith)
        requires
            m2 < key_base(),
            a2 < key_base(),
            key_base() == 0x1_0000_0000_0000_0000,
    ;
    assert(0 <= m1 * key_base()) by (nonlinear_arith)
        requires
            0 <= m1,
            key_base() == 0x1_0000_0000_0000_0000,
    ;
    assert(0 <= m2 * key_base()) by (nonlinear_arith)
        requires
            0 <= m2,
            key_base() == 0x1_0000_0000_0000_0000,
    ;
    if pair_key(m1, a1) == pair_key(m2, a2) {
        let k = m1 * key_base() + a1;
        lemma_fundamental_div_mod_converse(k, key_base(), m1 as int, a1 as int);
        lemma_fundamental_div_mod_converse(k, key_base(), m2 as int, a2 as int);
    }
}

fn make_key(mesh: u64, material: u64) -> (r: u128)
    ensures
        r == pair_key(mesh, material),
{
    assert(mesh * key_base() + material < 0x1_0000_0000_0000_0000_0000_0000_0000_0000) by (nonlinear_arith)
        requires
            mesh < key_base(),
            material < key_base(),
            key_base() == 0x1_0000_0000_0000_0000,
    ;
    assert(0 <= mesh * key_base()) by (nonlinear_arith)
        requires
            0 <= mesh,
            key_base() == 0x1_0000_0000_0000_0000,
    ;
    (mesh as u128) * 0x1_0000_0000_0000_0000u128 + (material as u128)
}

/// The plan a pair's set is built from, given the mesh upload and the
/// material's value.
pub open spec fn plan_spec(mesh: u64, material: u64, upload: MeshUpload, value: Bubbles) -> BindingPlan {
    BindingPlan {
        mesh,
        material,
        generation: upload.generation,
        bubble_radius: value.bubble_radius,
        storage: StorageView {
            buffer: upload.buffer,
            element_stride: upload.vertex_stride,
            record_count: upload.vertex_count,
        },
    }
}

/// The plan for a pair, from the mesh upload and the material's value.
pub fn plan_for(mesh: u64, material: u64, upload: &MeshUpload, value: &Bubbles) -> (r: BindingPlan)
    ensures
        r == plan_spec(mesh, material, *upload, *value),
{
    BindingPlan {
        mesh,
        material,
        generation: upload.generation,
        bubble_radius: value.bubble_radius,
        storage: StorageView {
            buffer: upload.buffer,
            element_stride: upload.vertex_stride,
            record_count: upload.vertex_count,
        },
    }
}

/// A plan whose storage view reads whole vertex records.
pub open spec fn plan_valid(p: BindingPlan) -> bool {
    p.storage.element_stride == VERTEX_RECORD_SIZE
}

/// What the prepare stage does for a pair, given the cache's contents.
pub open spec fn preparation_spec(
    sets: Map<u128, PreparedBindingSet>,
    mesh: u64,
    material: u64,
    upload: Option<MeshUpload>,
    value: Option<Bubbles>,
) -> Preparation {
    match (upload, value) {
        (Some(u), Some(v)) => {
            if u.vertex_stride != VERTEX_RECORD_SIZE {
                Preparation::Mismatch(
                    LayoutMismatch { declared: u.vertex_stride, expected: VERTEX_RECORD_SIZE },
                )
            } else if sets.contains_key(pair_key(mesh, material)) && sets[pair_key(
                mesh,
                material,
            )].plan == plan_spec(mesh, material, u, v) {
                Preparation::Current
            } else {
                Preparation::Build(plan_spec(mesh, material, u, v))
            }
        },
        _ => Preparation::NotReady,
    }
}

/// What a query for a pair yields: its set while that set was built from the
/// mesh upload and material value given, else not ready.
pub open spec fn lookup_spec(
    sets: Map<u128, PreparedBindingSet>,
    mesh: u64,
    material: u64,
    upload: MeshUpload,
    value: Bubbles,
) -> Lookup {
    let k = pair_key(mesh, material);
    if sets.contains_key(k) && sets[k].plan == plan_spec(mesh, material, upload, value) {
        Lookup::Ready(sets[k])
    } else {
        Lookup::NotReady
    }
}

/// The contents of a well-formed cache: each set is stored under the key of
/// its own pair, and its storage view reads whole vertex records.
pub open spec fn sets_wf(sets: Map<u128, PreparedBindingSet>) -> bool {
    forall|k: u128|
        #![trigger sets[k]]
        sets.contains_key(k) ==> k == pair_key(sets[k].plan.mesh, sets[k].plan.material)
            && plan_valid(sets[k].plan)
}

/// Whether some pair of `visible` has key `k`.
pub open spec fn key_visible(visible: Seq<(u64, u64)>, k: u128) -> bool {
    exists|i: int| 0 <= i < visible.len() && #[trigger] pair_key(visible[i].0, visible[i].1) == k
}

/// The prepared binding sets, keyed by pair.
pub struct ResourceCache {
    sets: HashMap<u128, PreparedBindingSet>,
    /// Every key of `sets`, perhaps with keys released since, which the
    /// next `retain_visible` sweeps out.
    keys: Vec<u128>,
}

impl View for ResourceCache {
    type V = Map<u128, PreparedBindingSet>;

    closed spec fn view(&self) -> Map<u128, PreparedBindingSet> {
        self.sets@
    }
}

impl ResourceCache {
    pub closed spec fn wf(&self) -> bool {
        &&& sets_wf(self.sets@)
        &&& forall|k: u128| #[trigger] self.sets@.contains_key(k) ==> self.keys@.contains(k)
    }

    /// The sets of a well-formed cache are each stored under their pair's key
    /// and read whole vertex records.
    pub proof fn lemma_wf(&self)
        requires
            self.wf(),
        ensures
            sets_wf(self@),
    {
    }

    /// An empty cache.
    pub fn new() -> (r: Self)
        ensures
            r.wf(),
            r@ == Map::<u128, PreparedBindingSet>::empty(),
    {
        ResourceCache { sets: HashMap::new(), keys: Vec::new() }
    }

    /// Number of sets held.
    pub fn len(&self) -> (r: usize)
        ensures
            r == self@.len(),
    {
        self.sets.len()
    }

    /// Decides what the prepare stage does for a pair this frame. `upload` is
    /// the mesh's uploaded buffer and `value` the material's value, `None`
    /// where the host has not finished preparing them.
    pub fn prepare(
        &self,
        mesh: u64,
        material: u64,
        upload: Option<MeshUpload>,
        value: Option<Bubbles>,
    ) -> (r: Preparation)
        ensures
            r == preparation_spec(self@, mesh, material, upload, value),
    {
        match (upload, value) {
            (Some(u), Some(v)) => {
                if let Err(e) = check_stride(u.vertex_stride) {
                    return Preparation::Mismatch(e);
                }
                let plan = plan_for(mesh, material, &u, &v);
                let k = make_key(mesh, material);
                match self.sets.get(&k) {
                    Some(s) if s.plan == plan => Preparation::Current,
                    _ => Preparation::Build(plan),
                }
            },
            _ => Preparation::NotReady,
        }
    }

    /// Stores the set built from `plan`, in place of any older set of the
    /// same pair; the sets of other pairs are untouched.
    pub fn store(&mut self, plan: BindingPlan, gpu: GpuObjects)
        requires
            old(self).wf(),
            plan_valid(plan),
        ensures
            final(self).wf(),
            final(self)@ == old(self)@.insert(
                pair_key(plan.mesh, plan.material),
                PreparedBindingSet { plan, gpu },
            ),
    {
        let k = make_key(plan.mesh, plan.material);
        if !self.sets.contains_key(&k) {
            self.keys.push(k);
        }
        self.sets.insert(k, PreparedBindingSet { plan, gpu });
        proof {
            assert forall|x: u128| #[trigger] self.sets@.contains_key(x) implies self.keys@.contains(x) by {
                if x != k {
                    assert(old(self).keys@.contains(x));
                    let j = choose|j: int| 0 <= j < old(self).keys@.len() && old(self).keys@[j] == x;
                    assert(self.keys@[j] == x);
                } else if !old(self).sets@.contains_key(k) {
                    assert(self.keys@[self.keys@.len() - 1] == k);
                }
            }
            assert forall|x: u128|
                #![trigger self.sets@[x]]
                self.sets@.contains_key(x) implies x == pair_key(
                    self.sets@[x].plan.mesh,
                    self.sets@[x].plan.material,
                ) && plan_valid(self.sets@[x].plan) by {
                if x != k {
                    assert(old(self).sets@[x] == self.sets@[x]);
                }
            }
        }
    }

    /// Drops the set of a pair that no visible entity uses any more.
    pub fn release(&mut self, mesh: u64, material: u64) -> (r: Option<PreparedBindingSet>)
        requires
            old(self).wf(),
        ensures
            final(self).wf(),
            final(self)@ == old(self)@.remove(pair_key(mesh, material)),
            r == (if old(self)@.contains_key(pair_key(mesh, material)) {
                Some(old(self)@[pair_key(mesh, material)])
            } else {
                None
            }),
    {
        let k = make_key(mesh, material);
        let r = self.sets.remove(&k);
        proof {
            assert forall|x: u128|
                #![trigger self.sets@[x]]
                self.sets@.contains_key(x) implies x == pair_key(
                    self.sets@[x].plan.mesh,
                    self.sets@[x].plan.material,
                ) && plan_valid(self.sets@[x].plan) by {
                assert(old(self).sets@[x] == self.sets@[x]);
            }
        }
        r
    }

    /// The pair's set, when it is current for the mesh upload and material
    /// value given; otherwise not ready, and the pair waits for a later frame.
    pub fn get_or_retry(&self, mesh: u64, material: u64, upload: &MeshUpload, value: &Bubbles) -> (r: Lookup)
        ensures
            r == lookup_spec(self@, mesh, material, *upload, *value),
    {
        let k = make_key(mesh, material);
        let plan = plan_for(mesh, material, upload, value);
        match self.sets.get(&k) {
            Some(s) if s.plan == plan => Lookup::Ready(*s),
            _ => Lookup::NotReady,
        }
    }

    /// Whether some pair of `visible` has key `k`.
    fn is_visible(visible: &Vec<(u64, u64)>, k: u128) -> (r: bool)
        ensures
            r == key_visible(visible@, k),
    {
        let mut i: usize = 0;
        while i < visible.len()
            invariant
                0 <= i <= visible.len(),
                forall|j: int| 0 <= j < i ==> #[trigger] pair_key(visible@[j].0, visible@[j].1) != k,
            decreases visible.len() - i,
        {
            let (mesh, material) = visible[i];
            if make_key(mesh, material) == k {
                return true;
            }
            i = i + 1;
        }
        false
    }

    /// Drops the sets of every pair that no visible entity uses any more, and
    /// hands them back so that their GPU objects can be freed. `visible` holds
    /// the (mesh, material) pairs of this frame's visible entities; the sets of
    /// those pairs stay as they are.
    pub fn retain_visible(&mut self, visible: &Vec<(u64, u64)>) -> (r: Vec<PreparedBindingSet>)
        requires
            old(self).wf(),
        ensures
            final(self).wf(),
            forall|k: u128|
                #[trigger] final(self)@.contains_key(k) <==> old(self)@.contains_key(k)
                    && key_visible(visible@, k),
            forall|k: u128| #[trigger]
                final(self)@.contains_key(k) ==> final(self)@[k] == old(self)@[k],
            forall|j: int|
                #![trigger r@[j]]
                0 <= j < r@.len() ==> {
                    let k = pair_key(r@[j].plan.mesh, r@[j].plan.material);
                    old(self)@.contains_key(k) && !key_visible(visible@, k) && r@[j] == old(self)@[k]
                },
            forall|k: u128|
                old(self)@.contains_key(k) && !key_visible(visible@, k) ==> r@.contains(
                    #[trigger] old(self)@[k],
                ),
    {
        let ghost start = self.sets@;
        let ghost keys = self.keys@;
        let mut kept: Vec<u128> = Vec::new();
        let mut released: Vec<PreparedBindingSet> = Vec::new();
        let mut i: usize = 0;
        while i < self.keys.len()
            invariant
                0 <= i <= keys.len(),
                self.keys@ == keys,
                forall|k: u128| #[trigger] start.contains_key(k) ==> keys.contains(k),
                sets_wf(start),
                forall|k: u128|
                    #[trigger] self.sets@.contains_key(k) <==> start.contains_key(k) && (key_visible(
                        visible@,
                        k,
                    ) || !(exists|j: int| 0 <= j < i && keys[j] == k)),
                forall|k: u128| #[trigger]
                    self.sets@.contains_key(k) ==> self.sets@[k] == start[k],
                forall|k: u128|
                    start.contains_key(k) && key_visible(visible@, k) && (exists|j: int|
                        0 <= j < i && keys[j] == k) ==> #[trigger] kept@.contains(k),
                forall|j: int|
                    #![trigger released@[j]]
                    0 <= j < released@.len() ==> {
                        let k = pair_key(released@[j].plan.mesh, released@[j].plan.material);
                        start.contains_key(k) && !key_visible(visible@, k) && released@[j] == start[k]
                    },
                forall|k: u128|
                    start.contains_key(k) && !key_visible(visible@, k) && (exists|j: int|
                        0 <= j < i && keys[j] == k) ==> released@.contains(#[trigger] start[k]),
            decreases keys.len() - i,
        {
            let k = self.keys[i];
            let ghost before_sets = self.sets@;
            let ghost before_kept = kept@;
            let ghost before_released = released@;
            if Self::is_visible(visible, k) {
                if self.sets.contains_key(&k) {
                    kept.push(k);
                }
            } else {
                match self.sets.remove(&k) {
                    Some(s) => {
                        released.push(s);
                    },
                    None => {},
                }
            }
            proof {
                assert forall|x: u128|
                    #[trigger] self.sets@.contains_key(x) <==> start.contains_key(x) && (key_visible(
                        visible@,
                        x,
                    ) || !(exists|j: int| 0 <= j < i + 1 && keys[j] == x)) by {
                    if exists|j: int| 0 <= j < i + 1 && keys[j] == x {
                        let j = choose|j: int| 0 <= j < i + 1 && keys[j] == x;
                        if j < i {
                            assert(exists|j2: int| 0 <= j2 < i && keys[j2] == x);
                        }
                    }
                    if exists|j: int| 0 <= j < i && keys[j] == x {
                        let j = choose|j: int| 0 <= j < i && keys[j] == x;
                        assert(0 <= j < i + 1 && keys[j] == x);
                    }
                    if x == k {
                        assert(keys[i as int] == x);
                    }
                }
                assert forall|x: u128|
                    start.contains_key(x) && key_visible(visible@, x) && (exists|j: int|
                        0 <= j < i + 1 && keys[j] == x) implies #[trigger] kept@.contains(x) by {
                    let j = choose|j: int| 0 <= j < i + 1 && keys[j] == x;
                    if j < i {
                        assert(before_kept.contains(x));
                        let m = choose|m: int| 0 <= m < before_kept.len() && before_kept[m] == x;
                        assert(kept@[m] == x);
                    } else {
                        assert(x == k);
                        if before_sets.contains_key(x) {
                            assert(kept@[kept@.len() - 1] == x);
                        } else {
                            assert(!(exists|j2: int| 0 <= j2 < i && keys[j2] == x));
                        }
                    }
                }
                assert forall|j: int|
                    #![trigger released@[j]]
                    0 <= j < released@.len() implies {
                        let x = pair_key(released@[j].plan.mesh, released@[j].plan.material);
                        start.contains_key(x) && !key_visible(visible@, x) && released@[j] == start[x]
                    } by {
                    if j < before_released.len() {
                        assert(released@[j] == before_released[j]);
                    } else {
                        assert(start.contains_key(k) && !key_visible(visible@, k) && released@[j]
                            == start[k]);
                        assert(k == pair_key(start[k].plan.mesh, start[k].plan.material));
                    }
                }
                assert forall|x: u128|
                    start.contains_key(x) && !key_visible(visible@, x) && (exists|j: int|
                        0 <= j < i + 1 && keys[j] == x) implies released@.contains(
                        #[trigger] start[x],
                    ) by {
                    let j = choose|j: int| 0 <= j < i + 1 && keys[j] == x;
                    if j < i {
                        let m = choose|m: int|
                            0 <= m < before_released.len() && before_released[m] == start[x];
                        assert(released@[m] == start[x]);
                    } else if before_sets.contains_key(x) {
                        assert(released@[released@.len() - 1] == start[x]);
                    } else {
                        assert(exists|j2: int| 0 <= j2 < i && keys[j2] == x);
                        let m = choose|m: int|
                            0 <= m < before_released.len() && before_released[m] == start[x];
                        assert(released@[m] == start[x]);
                    }
                }
            }
            i = i + 1;
        }
        self.keys = kept;
        proof {
            assert forall|x: u128| #[trigger]
                self.sets@.contains_key(x) implies self.keys@.contains(x) by {
                let j = choose|j: int| 0 <= j < keys.len() && keys[j] == x;
                assert(exists|j2: int| 0 <= j2 < keys.len() && keys[j2] == x);
            }
            assert forall|x: u128|
                #![trigger self.sets@[x]]
                self.sets@.contains_key(x) implies x == pair_key(
                    self.sets@[x].plan.mesh,
                    self.sets@[x].plan.material,
                ) && plan_valid(self.sets@[x].plan) by {
                assert(start.contains_key(x) && start[x] == self.sets@[x]);
            }
            assert forall|x: u128|
                #[trigger] self.sets@.contains_key(x) <==> start.contains_key(x) && key_visible(
                    visible@,
                    x,
                ) by {
                if start.contains_key(x) {
                    let j = choose|j: int| 0 <= j < keys.len() && keys[j] == x;
                    assert(exists|j2: int| 0 <= j2 < keys.len() && keys[j2] == x);
                }
            }
            assert forall|x: u128|
                start.contains_key(x) && !key_visible(visible@, x) implies released@.contains(
                    #[trigger] start[x],
                ) by {
                let j = choose|j: int| 0 <= j < keys.len() && keys[j] == x;
                assert(exists|j2: int| 0 <= j2 < keys.len() && keys[j2] == x);
            }
        }
        released
    }
}

} // verus!

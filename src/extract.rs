//! The extract stage's view of the mesh store: which meshes changed or went
//! away this frame, and a content generation per mesh that the cache checks
//! before it hands out a set.
use vstd::prelude::*;

use std::collections::HashMap;

verus! {

broadcast use vstd::std_specs::hash::group_hash_axioms;

/// An event of the host's mesh store.
#[derive(Clone, Copy, Debug, PartialEq, Eq, Structural)]
pub enum AssetEvent {
    Created { handle: u64 },
    Modified { handle: u64 },
    Removed { handle: u64 },
}

/// Meshes whose content must be taken again: those created or modified and
/// not removed after that.
pub open spec fn changed_after(events: Seq<AssetEvent>) -> Set<u64>
    decreases events.len(),
{
    if events.len() == 0 {
        Set::empty()
    } else {
        let before = changed_after(events.drop_last());
        match events.last() {
            AssetEvent::Created { handle } => before.insert(handle),
            AssetEvent::Modified { handle } => before.insert(handle),
            AssetEvent::Removed { handle } => before.remove(handle),
        }
    }
}

/// The handles of the removal events, in order.
pub open spec fn removed_after(events: Seq<AssetEvent>) -> Seq<u64>
    decreases events.len(),
{
    if events.len() == 0 {
        Seq::empty()
    } else {
        let before = removed_after(events.drop_last());
        match events.last() {
            AssetEvent::Removed { handle } => before.push(handle),
            _ => before,
        }
    }
}

/// The meshes a frame's events touch.
#[derive(Clone, Debug, PartialEq, Eq)]
pub struct MeshChanges {
    /// Created or modified, and still there: each handle once.
    pub changed: Vec<u64>,
    /// Removed, in the order of the events.
    pub removed: Vec<u64>,
}

/// `v` without `h`.
fn without(v: &Vec<u64>, h: u64) -> (r: Vec<u64>)
    requires
        v@.no_duplicates(),
    ensures
        r@.no_duplicates(),
        forall|x: u64| r@.contains(x) <==> v@.contains(x) && x != h,
{
    let mut r: Vec<u64> = Vec::new();
    let mut i: usize = 0;
    while i < v.len()
        invariant
            0 <= i <= v.len(),
            v@.no_duplicates(),
            r@.no_duplicates(),
            forall|x: u64| r@.contains(x) <==> (exists|j: int| 0 <= j < i && v@[j] == x) && x != h,
        decreases v.len() - i,
    {
        let x = v[i];
        let ghost prev = r@;
        if x != h {
            proof {
                assert(!prev.contains(x)) by {
                    if prev.contains(x) {
                        let j = choose|j: int| 0 <= j < i && v@[j] == x;
                        assert(v@[j] == v@[i as int]);
                    }
                }
            }
            r.push(x);
            proof {
                assert forall|y: u64| r@.contains(y) <==> prev.contains(y) || y == x by {
                    if r@.contains(y) {
                        let k = choose|k: int| 0 <= k < r@.len() && r@[k] == y;
                        if k < prev.len() {
                            assert(prev[k] == y);
                        }
                    }
                    if prev.contains(y) {
                        let k = choose|k: int| 0 <= k < prev.len() && prev[k] == y;
                        assert(r@[k] == y);
                    }
                    if y == x {
                        assert(r@[prev.len() as int] == y);
                    }
                }
            }
        }
        proof {
            assert forall|y: u64| r@.contains(y) <==> (exists|j: int| 0 <= j < i + 1 && v@[j] == y)
                && y != h by {
                if (exists|j: int| 0 <= j < i + 1 && v@[j] == y) && y != h {
                    let j = choose|j: int| 0 <= j < i + 1 && v@[j] == y;
                    if j < i {
                        assert(exists|j2: int| 0 <= j2 < i && v@[j2] == y);
                    }
                }
                if prev.contains(y) {
                    let j = choose|j: int| 0 <= j < i && v@[j] == y;
                    assert(0 <= j < i + 1 && v@[j] == y);
                }
                if y == x && x != h {
                    assert(v@[i as int] == y);
                }
            }
        }
        i = i + 1;
    }
    proof {
        assert forall|x: u64| r@.contains(x) <==> v@.contains(x) && x != h by {
            if v@.contains(x) {
                let k = choose|k: int| 0 <= k < v@.len() && v@[k] == x;
                assert(0 <= k < v.len() && v@[k] == x);
            }
            if exists|j: int| 0 <= j < v.len() && v@[j] == x {
                let j = choose|j: int| 0 <= j < v.len() && v@[j] == x;
                assert(v@.contains(x));
            }
        }
    }
    r
}

/// Whether `v` holds `h`.
fn holds(v: &Vec<u64>, h: u64) -> (r: bool)
    ensures
        r == v@.contains(h),
{
    let mut i: usize = 0;
    while i < v.len()
        invariant
            0 <= i <= v.len(),
            forall|j: int| 0 <= j < i ==> v@[j] != h,
        decreases v.len() - i,
    {
        if v[i] == h {
            assert(v@[i as int] == h);
            return true;
        }
        i = i + 1;
    }
    false
}

/// Sorts a frame's mesh events into the meshes to take again and the meshes
/// removed. A mesh removed and then created again in the same frame is in
/// both lists.
pub fn collect_mesh_changes(events: &Vec<AssetEvent>) -> (r: MeshChanges)
    ensures
        r.changed@.no_duplicates(),
        forall|h: u64| r.changed@.contains(h) <==> changed_after(events@).contains(h),
        r.removed@ == removed_after(events@),
{
    let mut changed: Vec<u64> = Vec::new();
    let mut removed: Vec<u64> = Vec::new();
    let mut i: usize = 0;
    while i < events.len()
        invariant
            0 <= i <= events.len(),
            changed@.no_duplicates(),
            forall|h: u64| changed@.contains(h) <==> changed_after(events@.take(i as int)).contains(h),
            removed@ == removed_after(events@.take(i as int)),
        decreases events.len() - i,
    {
        proof {
            assert(events@.take(i + 1).drop_last() =~= events@.take(i as int));
            assert(events@.take(i + 1).last() == events@[i as int]);
        }
        match events[i] {
            AssetEvent::Created { handle } | AssetEvent::Modified { handle } => {
                let ghost entry_changed = changed;
                proof {
                    assert(changed_after(events@.take(i + 1)) == changed_after(
                        events@.take(i as int),
                    ).insert(handle));
                }
                if !holds(&changed, handle) {
                    let ghost prev = changed@;
                    changed.push(handle);
                    proof {
                        assert forall|y: u64| changed@.contains(y) <==> prev.contains(y) || y == handle by {
                            if changed@.contains(y) {
                                let k = choose|k: int| 0 <= k < changed@.len() && changed@[k] == y;
                                if k < prev.len() {
                                    assert(prev[k] == y);
                                }
                            }
                            if prev.contains(y) {
                                let k = choose|k: int| 0 <= k < prev.len() && prev[k] == y;
                                assert(changed@[k] == y);
                            }
                            if y == handle {
                                assert(changed@[prev.len() as int] == y);
                            }
                        }
                    }
                }
                proof {
                    let ghost b = changed_after(events@.take(i as int));
                    let ghost a = changed_after(events@.take(i + 1));
                    assert forall|y: u64| changed@.contains(y) <==> a.contains(y) by {
                        assert(a.contains(y) <==> b.contains(y) || y == handle);
                        assert(changed@.contains(y) <==> entry_changed@.contains(y) || y == handle);
                    }
                }
            },
            AssetEvent::Removed { handle } => {
                proof {
                    assert(changed_after(events@.take(i + 1)) == changed_after(
                        events@.take(i as int),
                    ).remove(handle));
                }
                changed = without(&changed, handle);
                removed.push(handle);
                proof {
                    assert forall|y: u64| changed@.contains(y) <==> changed_after(
                        events@.take(i + 1),
                    ).contains(y) by {}
                }
            },
        }
        i = i + 1;
    }
    assert(events@.take(events.len() as int) =~= events@);
    MeshChanges { changed, removed }
}

/// What the render side knows of one mesh: the generation of its content
/// and whether the store still has it.
#[derive(Clone, Copy, Debug, PartialEq, Eq, Structural)]
pub struct MeshVersion {
    pub generation: u64,
    pub present: bool,
}

/// The version a mesh has once its content is taken again: the next
/// generation (wrapping, so that it always differs from the last one), or
/// generation zero for a mesh never seen.
pub open spec fn next_version(prev: Option<MeshVersion>) -> MeshVersion {
    match prev {
        Some(v) => MeshVersion {
            generation: if v.generation == u64::MAX {
                0
            } else {
                (v.generation + 1) as u64
            },
            present: true,
        },
        None => MeshVersion { generation: 0, present: true },
    }
}

pub open spec fn map_get<K, V>(m: Map<K, V>, k: K) -> Option<V> {
    if m.contains_key(k) {
        Some(m[k])
    } else {
        None
    }
}

/// The version of mesh `h` after a frame's changes: taken again if changed;
/// else marked gone if removed; else as it was. A removed mesh keeps its
/// generation, so that its next content gets a new one.
pub open spec fn version_after(
    prev: Map<u64, MeshVersion>,
    changed: Seq<u64>,
    removed: Seq<u64>,
    h: u64,
) -> Option<MeshVersion> {
    if changed.contains(h) {
        Some(next_version(map_get(prev, h)))
    } else if removed.contains(h) && prev.contains_key(h) {
        Some(MeshVersion { generation: prev[h].generation, present: false })
    } else {
        map_get(prev, h)
    }
}

/// The render side's record of the meshes, by handle.
pub struct ExtractedMeshes {
    versions: HashMap<u64, MeshVersion>,
}

impl View for ExtractedMeshes {
    type V = Map<u64, MeshVersion>;

    closed spec fn view(&self) -> Map<u64, MeshVersion> {
        self.versions@
    }
}

impl ExtractedMeshes {
    /// No mesh seen yet.
    pub fn new() -> (r: Self)
        ensures
            r@ == Map::<u64, MeshVersion>::empty(),
    {
        ExtractedMeshes { versions: HashMap::new() }
    }

    /// The generation of mesh `h`'s content, while the store has it.
    pub fn generation(&self, h: u64) -> (r: Option<u64>)
        ensures
            r == (if self@.contains_key(h) && self@[h].present {
                Some(self@[h].generation)
            } else {
                None
            }),
    {
        match self.versions.get(&h) {
            Some(v) if v.present => Some(v.generation),
            _ => None,
        }
    }

    /// Records a frame's changes: removed meshes are marked gone, then
    /// changed meshes get their next generation. Other meshes are untouched.
    pub fn record_changes(&mut self, changes: &MeshChanges)
        requires
            changes.changed@.no_duplicates(),
        ensures
            forall|h: u64| #[trigger]
                map_get(final(self)@, h) == version_after(
                    old(self)@,
                    changes.changed@,
                    changes.removed@,
                    h,
                ),
    {
        let ghost start = self@;
        let mut i: usize = 0;
        while i < changes.removed.len()
            invariant
                0 <= i <= changes.removed.len(),
                forall|h: u64| #[trigger]
                    map_get(self@, h) == (if changes.removed@.take(i as int).contains(h)
                        && start.contains_key(h) {
                        Some(MeshVersion { generation: start[h].generation, present: false })
                    } else {
                        map_get(start, h)
                    }),
            decreases changes.removed.len() - i,
        {
            let h = changes.removed[i];
            let ghost before = self@;
            match self.versions.get(&h) {
                Some(v) => {
                    let gone = MeshVersion { generation: v.generation, present: false };
                    self.versions.insert(h, gone);
                },
                None => {},
            }
            proof {
                assert forall|x: u64| #[trigger]
                    map_get(self@, x) == (if changes.removed@.take(i + 1).contains(x)
                        && start.contains_key(x) {
                        Some(MeshVersion { generation: start[x].generation, present: false })
                    } else {
                        map_get(start, x)
                    }) by {
                    assert(map_get(before, x) == map_get(before, x));
                    let t = changes.removed@.take(i as int);
                    let t1 = changes.removed@.take(i + 1);
                    assert(t1 =~= t.push(h));
                    if t1.contains(x) && x != h {
                        let k = choose|k: int| 0 <= k < t1.len() && t1[k] == x;
                        assert(t[k] == x);
                    }
                    if t.contains(x) {
                        let k = choose|k: int| 0 <= k < t.len() && t[k] == x;
                        assert(t1[k] == x);
                    }
                    if x == h {
                        assert(t1[i as int] == x);
                    }
                }
            }
            i = i + 1;
        }
        assert(changes.removed@.take(changes.removed.len() as int) =~= changes.removed@);
        let ghost mid = self@;
        let mut j: usize = 0;
        while j < changes.changed.len()
            invariant
                0 <= j <= changes.changed.len(),
                changes.changed@.no_duplicates(),
                forall|h: u64| #[trigger]
                    map_get(self@, h) == (if changes.changed@.take(j as int).contains(h) {
                        Some(next_version(map_get(start, h)))
                    } else {
                        map_get(mid, h)
                    }),
                forall|h: u64| #[trigger]
                    map_get(mid, h) == (if changes.removed@.contains(h) && start.contains_key(h) {
                        Some(MeshVersion { generation: start[h].generation, present: false })
                    } else {
                        map_get(start, h)
                    }),
            decreases changes.changed.len() - j,
        {
            let h = changes.changed[j];
            let ghost before = self@;
            let ghost t = changes.changed@.take(j as int);
            proof {
                assert(!t.contains(h)) by {
                    if t.contains(h) {
                        let k = choose|k: int| 0 <= k < t.len() && t[k] == h;
                        assert(changes.changed@[k] == changes.changed@[j as int]);
                    }
                }
                assert(map_get(before, h) == map_get(mid, h));
            }
            let next = match self.versions.get(&h) {
                Some(v) => {
                    if v.generation == u64::MAX {
                        MeshVersion { generation: 0, present: true }
                    } else {
                        MeshVersion { generation: v.generation + 1, present: true }
                    }
                },
                None => MeshVersion { generation: 0, present: true },
            };
            self.versions.insert(h, next);
            proof {
                assert forall|x: u64| #[trigger]
                    map_get(self@, x) == (if changes.changed@.take(j + 1).contains(x) {
                        Some(next_version(map_get(start, x)))
                    } else {
                        map_get(mid, x)
                    }) by {
                    assert(map_get(before, x) == map_get(before, x));
                    assert(map_get(mid, x) == map_get(mid, x));
                    assert(map_get(start, x) == map_get(start, x));
                    let t1 = changes.changed@.take(j + 1);
                    assert(t1 =~= t.push(h));
                    if t1.contains(x) && x != h {
                        let k = choose|k: int| 0 <= k < t1.len() && t1[k] == x;
                        assert(t[k] == x);
                    }
                    if t.contains(x) {
                        let k = choose|k: int| 0 <= k < t.len() && t[k] == x;
                        assert(t1[k] == x);
                    }
                    if x == h {
                        assert(t1[j as int] == x);
                    }
                }
            }
            j = j + 1;
        }
        assert(changes.changed@.take(changes.changed.len() as int) =~= changes.changed@);
        proof {
            assert forall|h: u64| #[trigger]
                map_get(self@, h) == version_after(start, changes.changed@, changes.removed@, h) by {
                assert(map_get(mid, h) == map_get(mid, h));
            }
        }
    }
}

} // verus!

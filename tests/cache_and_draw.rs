use bubbles::cache::{
    BindingPlan, GpuObjects, Lookup, MeshUpload, Preparation, PreparedBindingSet, ResourceCache,
    StorageView,
};
use bubbles::draw::{
    queue_draw_bubbles, select_draw, DrawBubblesMaterial, DrawCall, DrawDecision, MissingKind,
    VisibleItem,
};
use bubbles::layout::LayoutMismatch;
use bubbles::material::Bubbles;

const MESH_A: u64 = 7;
const MAT: u64 = 3;

fn radius(r: f32) -> Bubbles {
    Bubbles { bubble_radius: r.to_bits() }
}

fn upload(buffer: u64, count: u64, generation: u64) -> MeshUpload {
    MeshUpload { buffer, vertex_stride: 32, vertex_count: count, generation }
}

fn gpu(n: u64) -> GpuObjects {
    GpuObjects { bind_group: n, uniform_buffer: n + 1, quad_buffer: n + 2 }
}

/// Runs the prepare stage for one pair, storing a set when one is to be built.
fn prepare_and_store(
    cache: &mut ResourceCache,
    mesh: u64,
    material: u64,
    up: Option<MeshUpload>,
    value: Option<Bubbles>,
    objects: GpuObjects,
) -> Preparation {
    let p = cache.prepare(mesh, material, up, value);
    if let Preparation::Build(plan) = p {
        cache.store(plan, objects);
    }
    p
}

#[test]
fn first_query_waits_until_both_sides_are_ready() {
    let mut cache = ResourceCache::new();
    let up = upload(50, 3, 0);
    let mat = radius(1.0);
    assert_eq!(cache.get_or_retry(MESH_A, MAT, &up, &mat), Lookup::NotReady);
    assert_eq!(cache.prepare(MESH_A, MAT, None, Some(mat)), Preparation::NotReady);
    assert_eq!(cache.prepare(MESH_A, MAT, Some(up), None), Preparation::NotReady);
    assert_eq!(cache.prepare(MESH_A, MAT, None, None), Preparation::NotReady);
    assert_eq!(cache.len(), 0);

    let p = prepare_and_store(&mut cache, MESH_A, MAT, Some(up), Some(mat), gpu(100));
    let plan = BindingPlan {
        mesh: MESH_A,
        material: MAT,
        generation: 0,
        bubble_radius: 1.0f32.to_bits(),
        storage: StorageView { buffer: 50, element_stride: 32, record_count: 3 },
    };
    assert_eq!(p, Preparation::Build(plan));
    let set = PreparedBindingSet { plan, gpu: gpu(100) };
    assert_eq!(cache.get_or_retry(MESH_A, MAT, &up, &mat), Lookup::Ready(set));
    assert_eq!(cache.get_or_retry(MESH_A, MAT, &up, &mat), Lookup::Ready(set));
    assert_eq!(cache.prepare(MESH_A, MAT, Some(up), Some(mat)), Preparation::Current);
    assert_eq!(cache.len(), 1);
}

#[test]
fn scenario_triangle_mesh_ready_on_second_frame() {
    let mut cache = ResourceCache::new();
    let mat = radius(1.0);
    // frame one: the mesh upload has not completed
    assert_eq!(
        prepare_and_store(&mut cache, MESH_A, MAT, None, Some(mat), gpu(100)),
        Preparation::NotReady
    );
    // frame two: uploaded, three vertices
    let up = upload(50, 3, 0);
    let p = prepare_and_store(&mut cache, MESH_A, MAT, Some(up), Some(mat), gpu(100));
    assert!(matches!(p, Preparation::Build(_)));
    let Lookup::Ready(set) = cache.get_or_retry(MESH_A, MAT, &up, &mat) else {
        panic!("set not ready after upload")
    };
    assert_eq!(set.plan.storage.record_count, 3);
    assert_eq!(set.plan.storage.element_stride, 32);
    let call = DrawBubblesMaterial::render(9, &set);
    assert_eq!((call.vertex_start, call.vertex_end), (0, 6));
    assert_eq!((call.instance_start, call.instance_end), (0, 1));
}

#[test]
fn scenario_reloaded_mesh_rebuilds_storage_view() {
    let mut cache = ResourceCache::new();
    let mat = radius(1.0);
    let old_up = upload(50, 3, 0);
    prepare_and_store(&mut cache, MESH_A, MAT, Some(old_up), Some(mat), gpu(100));

    let new_up = upload(51, 6, 1);
    // the old set is not handed out for the new generation
    assert_eq!(cache.get_or_retry(MESH_A, MAT, &new_up, &mat), Lookup::NotReady);
    let p = prepare_and_store(&mut cache, MESH_A, MAT, Some(new_up), Some(mat), gpu(200));
    let Preparation::Build(plan) = p else { panic!("no rebuild after reload") };
    assert_eq!(plan.storage.record_count, 6);
    assert_eq!(plan.storage.buffer, 51);
    assert_eq!(plan.generation, 1);
    let Lookup::Ready(set) = cache.get_or_retry(MESH_A, MAT, &new_up, &mat) else {
        panic!("rebuilt set not ready")
    };
    assert_eq!(set.plan.storage.record_count, 6);
    assert_eq!(set.gpu, gpu(200));
    // the three-record view is gone
    assert_eq!(cache.get_or_retry(MESH_A, MAT, &old_up, &mat), Lookup::NotReady);
    assert_eq!(cache.len(), 1);
}

#[test]
fn material_change_rebuilds_only_its_pair() {
    let mut cache = ResourceCache::new();
    let up = upload(50, 3, 0);
    prepare_and_store(&mut cache, MESH_A, MAT, Some(up), Some(radius(1.0)), gpu(100));
    prepare_and_store(&mut cache, MESH_A, MAT + 1, Some(up), Some(radius(1.0)), gpu(110));
    let p = prepare_and_store(&mut cache, MESH_A, MAT, Some(up), Some(radius(0.03)), gpu(120));
    assert!(matches!(p, Preparation::Build(plan) if plan.bubble_radius == 0.03f32.to_bits()));
    assert_eq!(cache.len(), 2);
    assert!(matches!(
        cache.get_or_retry(MESH_A, MAT + 1, &up, &radius(1.0)),
        Lookup::Ready(s) if s.gpu == gpu(110)
    ));
    assert_eq!(cache.get_or_retry(MESH_A, MAT, &up, &radius(1.0)), Lookup::NotReady);
}

#[test]
fn one_set_per_pair_however_often_prepared() {
    let mut cache = ResourceCache::new();
    let up = upload(50, 3, 0);
    let mat = radius(1.0);
    let first = cache.prepare(MESH_A, MAT, Some(up), Some(mat));
    let second = cache.prepare(MESH_A, MAT, Some(up), Some(mat));
    assert_eq!(first, second);
    if let Preparation::Build(plan) = first {
        cache.store(plan, gpu(100));
    }
    if let Preparation::Build(plan) = second {
        cache.store(plan, gpu(100));
    }
    assert_eq!(cache.len(), 1);
    // two different pairs on the same handles' values are kept apart
    prepare_and_store(&mut cache, MAT, MESH_A, Some(up), Some(mat), gpu(300));
    assert_eq!(cache.len(), 2);
    let a = cache.get_or_retry(MESH_A, MAT, &up, &mat);
    let b = cache.get_or_retry(MESH_A, MAT, &up, &mat);
    assert_eq!(a, b);
}

#[test]
fn mismatched_stride_is_refused() {
    let mut cache = ResourceCache::new();
    let bad = MeshUpload { buffer: 50, vertex_stride: 48, vertex_count: 3, generation: 0 };
    let p = prepare_and_store(&mut cache, MESH_A, MAT, Some(bad), Some(radius(1.0)), gpu(1));
    assert_eq!(p, Preparation::Mismatch(LayoutMismatch { declared: 48, expected: 32 }));
    assert_eq!(cache.len(), 0);
    assert_eq!(cache.get_or_retry(MESH_A, MAT, &bad, &radius(1.0)), Lookup::NotReady);
}

#[test]
fn release_drops_only_that_pair() {
    let mut cache = ResourceCache::new();
    let up = upload(50, 3, 0);
    prepare_and_store(&mut cache, MESH_A, MAT, Some(up), Some(radius(1.0)), gpu(100));
    prepare_and_store(&mut cache, MESH_A + 1, MAT, Some(up), Some(radius(1.0)), gpu(110));
    let gone = cache.release(MESH_A, MAT);
    assert!(matches!(gone, Some(s) if s.gpu == gpu(100)));
    assert_eq!(cache.release(MESH_A, MAT), None);
    assert_eq!(cache.len(), 1);
    assert_eq!(cache.get_or_retry(MESH_A, MAT, &up, &radius(1.0)), Lookup::NotReady);
}

#[test]
fn draw_is_six_vertices_whatever_the_mesh_size() {
    let mut cache = ResourceCache::new();
    let small = upload(50, 3, 0);
    let large = upload(60, 30_000, 0);
    let mat = radius(1.0);
    prepare_and_store(&mut cache, 1, MAT, Some(small), Some(mat), gpu(100));
    prepare_and_store(&mut cache, 2, MAT, Some(large), Some(mat), gpu(200));
    let items = vec![
        VisibleItem { entity: 10, mesh: 1, material: MAT, upload: Some(small), value: Some(mat) },
        VisibleItem { entity: 20, mesh: 2, material: MAT, upload: Some(large), value: Some(mat) },
    ];
    let decisions = queue_draw_bubbles(&cache, &items);
    assert_eq!(
        decisions,
        vec![
            DrawDecision::Queued(DrawCall {
                entity: 10,
                quad_buffer: 102,
                bind_group: 100,
                vertex_start: 0,
                vertex_end: 6,
                instance_start: 0,
                instance_end: 1,
            }),
            DrawDecision::Queued(DrawCall {
                entity: 20,
                quad_buffer: 202,
                bind_group: 200,
                vertex_start: 0,
                vertex_end: 6,
                instance_start: 0,
                instance_end: 1,
            }),
        ]
    );
}

#[test]
fn scenario_removed_material_is_reported_and_skipped() {
    let mut cache = ResourceCache::new();
    let up = upload(50, 3, 0);
    let mat = radius(1.0);
    prepare_and_store(&mut cache, MESH_A, MAT, Some(up), Some(mat), gpu(100));
    let items = vec![
        VisibleItem { entity: 1, mesh: MESH_A, material: MAT, upload: Some(up), value: None },
        VisibleItem { entity: 2, mesh: MESH_A, material: MAT, upload: Some(up), value: Some(mat) },
    ];
    let decisions = queue_draw_bubbles(&cache, &items);
    assert_eq!(decisions.len(), 2);
    assert_eq!(decisions[0], DrawDecision::MissingResource(MissingKind::Material));
    assert!(matches!(decisions[1], DrawDecision::Queued(c) if c.entity == 2));
}

#[test]
fn removed_mesh_and_unready_pair_are_skipped() {
    let cache = ResourceCache::new();
    let up = upload(50, 3, 0);
    let missing_mesh =
        VisibleItem { entity: 1, mesh: MESH_A, material: MAT, upload: None, value: Some(radius(1.0)) };
    assert_eq!(
        select_draw(&cache, &missing_mesh),
        DrawDecision::MissingResource(MissingKind::Mesh)
    );
    let unready =
        VisibleItem { entity: 2, mesh: MESH_A, material: MAT, upload: Some(up), value: Some(radius(1.0)) };
    assert_eq!(select_draw(&cache, &unready), DrawDecision::Skipped);
    assert_eq!(queue_draw_bubbles(&cache, &vec![]), vec![]);
}

#[test]
fn retain_visible_drops_pairs_no_entity_uses() {
    let mut cache = ResourceCache::new();
    let up = upload(50, 3, 0);
    let mat = radius(1.0);
    prepare_and_store(&mut cache, 1, MAT, Some(up), Some(mat), gpu(100));
    prepare_and_store(&mut cache, 2, MAT, Some(up), Some(mat), gpu(200));
    prepare_and_store(&mut cache, 3, MAT, Some(up), Some(mat), gpu(300));
    let mut dropped = cache.retain_visible(&vec![(2, MAT), (9, 9)]);
    dropped.sort_by_key(|s| s.plan.mesh);
    assert_eq!(dropped.len(), 2);
    assert_eq!(dropped[0].gpu, gpu(100));
    assert_eq!(dropped[1].gpu, gpu(300));
    assert_eq!(cache.len(), 1);
    assert!(matches!(cache.get_or_retry(2, MAT, &up, &mat), Lookup::Ready(s) if s.gpu == gpu(200)));
    // released then stored again, then swept: each set is handed back once
    cache.release(2, MAT);
    prepare_and_store(&mut cache, 2, MAT, Some(up), Some(mat), gpu(400));
    let again = cache.retain_visible(&vec![]);
    assert_eq!(again.len(), 1);
    assert_eq!(again[0].gpu, gpu(400));
    assert_eq!(cache.len(), 0);
    assert_eq!(cache.retain_visible(&vec![]), vec![]);
}

#[test]
fn plan_takes_storage_view_from_upload_and_uniform_from_material() {
    let up = MeshUpload { buffer: 8, vertex_stride: 32, vertex_count: 12, generation: 4 };
    let plan = bubbles::cache::plan_for(1, 2, &up, &radius(0.5));
    assert_eq!(
        plan,
        BindingPlan {
            mesh: 1,
            material: 2,
            generation: 4,
            bubble_radius: 0.5f32.to_bits(),
            storage: StorageView { buffer: 8, element_stride: 32, record_count: 12 },
        }
    );
}

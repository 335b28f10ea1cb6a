use bubbles::layout::{
    bind_group_layout_entries, check_stride, quad_vertex_buffer_layout, record_stride,
    BindLayoutEntry, BindingKind, LayoutMismatch, ShaderStages,
    Vertex, VertexAttribute, VertexField, VertexFormat, VertexStepMode, STORAGE_BINDING, UNIFORM_BINDING,
    VERTEX_RECORD_SIZE,
};
use bubbles::material::{Bubbles, NoisyVerts, PipelineDescriptor};
use bubbles::quad::{quad_mesh, quad_vertex_bytes, vertex_words, QuadVertex, QUAD_VERTEX_COUNT};

#[test]
fn vertex_record_is_position_normal_uv_packed() {
    let fields = Vertex::record_fields();
    assert_eq!(
        fields,
        vec![
            VertexField { format: VertexFormat::Float32x3, offset: 0 },
            VertexField { format: VertexFormat::Float32x3, offset: 12 },
            VertexField { format: VertexFormat::Float32x2, offset: 24 },
        ]
    );
    assert_eq!(record_stride(&fields), Some(32));
    assert_eq!(VERTEX_RECORD_SIZE, 32);
    assert_eq!(std::mem::size_of::<Vertex>() as u64, VERTEX_RECORD_SIZE);
}

#[test]
fn record_stride_refuses_padding_and_overlap() {
    let padded = vec![
        VertexField { format: VertexFormat::Float32x3, offset: 0 },
        VertexField { format: VertexFormat::Float32x3, offset: 16 },
    ];
    assert_eq!(record_stride(&padded), None);
    let overlapping = vec![
        VertexField { format: VertexFormat::Float32x3, offset: 0 },
        VertexField { format: VertexFormat::Float32x2, offset: 8 },
    ];
    assert_eq!(record_stride(&overlapping), None);
    assert_eq!(record_stride(&vec![]), Some(0));
}

#[test]
fn layout_with_record_stride_has_uniform_then_storage() {
    let entries = bind_group_layout_entries(32).unwrap();
    assert_eq!(
        entries,
        vec![
            BindLayoutEntry {
                binding: UNIFORM_BINDING,
                visibility: ShaderStages::Fragment,
                kind: BindingKind::Uniform { min_size: 4 },
            },
            BindLayoutEntry {
                binding: STORAGE_BINDING,
                visibility: ShaderStages::VertexFragment,
                kind: BindingKind::ReadOnlyStorage { element_stride: 32 },
            },
        ]
    );
    assert_eq!(UNIFORM_BINDING, 100);
    assert_eq!(STORAGE_BINDING, 101);
}

#[test]
fn layout_with_other_stride_fails() {
    // std140-style padding of vec3 fields would give 48; a bare position, 12.
    assert_eq!(
        bind_group_layout_entries(48),
        Err(LayoutMismatch { declared: 48, expected: 32 })
    );
    assert_eq!(
        bind_group_layout_entries(12),
        Err(LayoutMismatch { declared: 12, expected: 32 })
    );
    assert_eq!(check_stride(0), Err(LayoutMismatch { declared: 0, expected: 32 }));
    assert_eq!(check_stride(32), Ok(()));
}

#[test]
fn quad_is_two_triangles_sharing_a_diagonal() {
    let q = quad_mesh();
    assert_eq!(q.len(), 6);
    assert_eq!(QUAD_VERTEX_COUNT, 6);
    let v = |x: f32, y: f32| QuadVertex { x: x.to_bits(), y: y.to_bits(), z: 0.0f32.to_bits() };
    assert_eq!(
        q,
        vec![v(-0.4, 0.8), v(-0.4, -0.8), v(0.4, 0.8), v(0.4, 0.8), v(-0.4, -0.8), v(0.4, -0.8)]
    );
    // the shared diagonal: top-right and bottom-left appear in both triangles
    assert_eq!(q[1], q[4]);
    assert_eq!(q[2], q[3]);
}

#[test]
fn quad_bytes_are_the_positions_in_machine_order() {
    let bytes = quad_vertex_bytes();
    assert_eq!(bytes.len(), 72);
    let mut expected = Vec::new();
    for w in vertex_words(&quad_mesh()) {
        expected.extend_from_slice(&w.to_ne_bytes());
    }
    assert_eq!(bytes, expected);
    assert_eq!(&bytes[0..4], &(-0.4f32).to_ne_bytes());
    assert_eq!(&bytes[4..8], &0.8f32.to_ne_bytes());
}

#[test]
fn vertex_words_flatten_in_order() {
    let vs = vec![QuadVertex { x: 1, y: 2, z: 3 }, QuadVertex { x: 4, y: 5, z: 6 }];
    assert_eq!(vertex_words(&vs), vec![1, 2, 3, 4, 5, 6]);
    assert_eq!(vertex_words(&vec![]), Vec::<u32>::new());
}

#[test]
fn quad_buffer_layout_is_one_float3_position() {
    let l = quad_vertex_buffer_layout();
    assert_eq!(l.array_stride, 12);
    assert_eq!(l.step_mode, VertexStepMode::Vertex);
    assert_eq!(
        l.attributes,
        vec![VertexAttribute { format: VertexFormat::Float32x3, offset: 0, shader_location: 0 }]
    );
}

#[test]
fn material_defaults_are_one() {
    assert_eq!(Bubbles::default().bubble_radius, 1.0f32.to_bits());
    let n = NoisyVerts::default();
    assert_eq!(n.noise_magnitude, 1.0f32.to_bits());
    assert_eq!(n.noise_scale, 1.0f32.to_bits());
    assert_eq!(n.time_scale, 1.0f32.to_bits());
    assert_eq!(Bubbles::vertex_shader(), "shaders/bubbles.wgsl");
    assert_eq!(Bubbles::fragment_shader(), "shaders/bubbles.wgsl");
    assert_eq!(NoisyVerts::vertex_shader(), "shaders/noisy_verts.wgsl");
}

#[test]
fn bubbles_specialize_prefixes_label_and_uses_quad_input() {
    let mut d = PipelineDescriptor {
        label: Some("pbr_pipeline".to_string()),
        vertex_buffers: vec![],
    };
    Bubbles::specialize(&mut d);
    assert_eq!(d.label, Some("bubbles_pbr_pipeline".to_string()));
    assert_eq!(d.vertex_buffers, vec![quad_vertex_buffer_layout()]);

    let mut unlabelled = PipelineDescriptor { label: None, vertex_buffers: vec![] };
    Bubbles::specialize(&mut unlabelled);
    assert_eq!(unlabelled.label, None);
    assert_eq!(unlabelled.vertex_buffers.len(), 1);
}

#[test]
fn noisy_specialize_prefixes_label_only() {
    let mut d = PipelineDescriptor {
        label: Some("mesh".to_string()),
        vertex_buffers: vec![quad_vertex_buffer_layout(), quad_vertex_buffer_layout()],
    };
    NoisyVerts::specialize(&mut d);
    assert_eq!(d.label, Some("noisy_mesh".to_string()));
    assert_eq!(d.vertex_buffers.len(), 2);
}

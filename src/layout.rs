//! The vertex record schema and the bind-group layout built from it.
//!
//! A mesh's uploaded vertex buffer is read a second time, by the shaders, as
//! an array of records. That is only sound when the array's element stride
//! equals the size of the record the buffer was packed with, so the schema is
//! written out field by field here and the layout refuses any other stride.
use vstd::prelude::*;

verus! {

/// Binding index of the material's uniform (its scalar fields).
pub const UNIFORM_BINDING: u32 = 100;

/// Binding index of the read-only storage view of the mesh's vertex buffer.
pub const STORAGE_BINDING: u32 = 101;

/// Bytes of the material's scalar fields: one 32-bit float, the bubble radius.
pub const UNIFORM_SIZE: u64 = 4;

/// Bytes of one vertex record: position (3 floats), normal (3), uv (2).
pub const VERTEX_RECORD_SIZE: u64 = 32;

/// Bytes of one quad vertex: a position of three 32-bit floats.
pub const QUAD_VERTEX_STRIDE: u64 = 12;

/// The formats a vertex field may have.
#[derive(Clone, Copy, Debug, PartialEq, Eq, Structural)]
pub enum VertexFormat {
    Float32x2,
    Float32x3,
}

impl VertexFormat {
    pub open spec fn spec_size(self) -> nat {
        match self {
            VertexFormat::Float32x2 => 8,
            VertexFormat::Float32x3 => 12,
        }
    }

    /// Bytes taken by one value of this format.
    pub fn size(&self) -> (r: u64)
        ensures
            r == self.spec_size(),
    {
        match self {
            VertexFormat::Float32x2 => 8,
            VertexFormat::Float32x3 => 12,
        }
    }
}

/// One field of a vertex record: its format and its byte offset in the record.
#[derive(Clone, Copy, Debug, PartialEq, Eq, Structural)]
pub struct VertexField {
    pub format: VertexFormat,
    pub offset: u64,
}

/// Sum of the sizes of the fields.
pub open spec fn fields_size(fields: Seq<VertexField>) -> nat
    decreases fields.len(),
{
    if fields.len() == 0 {
        0
    } else {
        fields_size(fields.drop_last()) + fields.last().format.spec_size()
    }
}

/// Each field starts where the fields before it end: no padding, no overlap.
pub open spec fn fields_packed(fields: Seq<VertexField>) -> bool {
    forall|i: int| 0 <= i < fields.len() ==> #[trigger] fields[i].offset == fields_size(fields.take(i))
}

/// The record the mesh vertex buffer is packed with: position, normal, uv.
pub open spec fn vertex_record_spec() -> Seq<VertexField> {
    seq![
        VertexField { format: VertexFormat::Float32x3, offset: 0 },
        VertexField { format: VertexFormat::Float32x3, offset: 12 },
        VertexField { format: VertexFormat::Float32x2, offset: 24 },
    ]
}

/// One mesh vertex record as it sits in the vertex buffer, each float
/// carried as its bit pattern.
#[derive(Clone, Copy, Debug, PartialEq, Eq)]
pub struct Vertex {
    pub position: [u32; 3],
    pub normal: [u32; 3],
    pub uv: [u32; 2],
}

impl Vertex {
    /// The fields of the record, in buffer order.
    pub fn record_fields() -> (r: Vec<VertexField>)
        ensures
            r@ == vertex_record_spec(),
    {
        let r = vec![
            VertexField { format: VertexFormat::Float32x3, offset: 0 },
            VertexField { format: VertexFormat::Float32x3, offset: 12 },
            VertexField { format: VertexFormat::Float32x2, offset: 24 },
        ];
        assert(r@ =~= vertex_record_spec());
        r
    }
}

/// The record schema is packed and its size is the vertex record size.
pub proof fn lemma_vertex_record_size()
    ensures
        fields_packed(vertex_record_spec()),
        fields_size(vertex_record_spec()) == VERTEX_RECORD_SIZE,
{
    let f = vertex_record_spec();
    assert(fields_size(f.take(0)) == 0);
    assert(f.take(1).drop_last() =~= f.take(0));
    assert(fields_size(f.take(1)) == 12);
    assert(f.take(2).drop_last() =~= f.take(1));
    assert(fields_size(f.take(2)) == 24);
    assert(f.take(3).drop_last() =~= f.take(2));
    assert(fields_size(f.take(3)) == 32);
    assert(f.take(3) =~= f);
    assert(forall|i: int| 0 <= i < 3 ==> #[trigger] f[i].offset == fields_size(f.take(i)));
}

/// The stride of a record made of `fields`: their total size, when each field
/// starts where the previous one ends and the total fits in 64 bits; `None`
/// otherwise.
pub fn record_stride(fields: &Vec<VertexField>) -> (r: Option<u64>)
    ensures
        r is Some <==> fields_packed(fields@) && fields_size(fields@) <= u64::MAX,
        r matches Some(s) ==> s == fields_size(fields@),
{
    let mut total: u128 = 0;
    let mut i: usize = 0;
    while i < fields.len()
        invariant
            0 <= i <= fields.len(),
            total == fields_size(fields@.take(i as int)),
            total <= 12 * i,
            forall|j: int| 0 <= j < i ==> #[trigger] fields@[j].offset == fields_size(fields@.take(j)),
        decreases fields.len() - i,
    {
        if fields[i].offset as u128 != total {
            return None;
        }
        let size = fields[i].format.size();
        proof {
            assert(fields@.take(i + 1).drop_last() =~= fields@.take(i as int));
        }
        total = total + size as u128;
        i = i + 1;
    }
    assert(fields@.take(fields.len() as int) =~= fields@);
    if total > u64::MAX as u128 {
        None
    } else {
        Some(total as u64)
    }
}

/// A declared element stride that differs from the vertex record size.
#[derive(Clone, Copy, Debug, PartialEq, Eq, Structural)]
pub struct LayoutMismatch {
    pub declared: u64,
    pub expected: u64,
}

/// Shader stages that can see a binding.
#[derive(Clone, Copy, Debug, PartialEq, Eq, Structural)]
pub enum ShaderStages {
    Fragment,
    VertexFragment,
}

/// What a binding slot holds.
#[derive(Clone, Copy, Debug, PartialEq, Eq, Structural)]
pub enum BindingKind {
    /// A uniform buffer of at least `min_size` bytes.
    Uniform { min_size: u64 },
    /// A read-only storage array of records `element_stride` bytes apart,
    /// with no fixed length: the length comes from the mesh bound to it.
    ReadOnlyStorage { element_stride: u64 },
}

/// One slot of the material's bind-group layout.
#[derive(Clone, Copy, Debug, PartialEq, Eq, Structural)]
pub struct BindLayoutEntry {
    pub binding: u32,
    pub visibility: ShaderStages,
    pub kind: BindingKind,
}

/// The layout of the bubbles material: its uniform, seen by the fragment
/// stage, then the storage view of the mesh vertices, seen by both stages.
pub open spec fn bubbles_layout_spec() -> Seq<BindLayoutEntry> {
    seq![
        BindLayoutEntry {
            binding: UNIFORM_BINDING,
            visibility: ShaderStages::Fragment,
            kind: BindingKind::Uniform { min_size: UNIFORM_SIZE },
        },
        BindLayoutEntry {
            binding: STORAGE_BINDING,
            visibility: ShaderStages::VertexFragment,
            kind: BindingKind::ReadOnlyStorage { element_stride: VERTEX_RECORD_SIZE },
        },
    ]
}

/// Checks a mesh buffer's declared stride against the vertex record.
pub fn check_stride(declared: u64) -> (r: Result<(), LayoutMismatch>)
    ensures
        r is Ok <==> declared == VERTEX_RECORD_SIZE,
        r matches Err(e) ==> e == (LayoutMismatch { declared, expected: VERTEX_RECORD_SIZE }),
{
    let fields = Vertex::record_fields();
    proof {
        lemma_vertex_record_size();
    }
    let expected = record_stride(&fields);
    match expected {
        Some(s) if s == declared => Ok(()),
        _ => Err(LayoutMismatch { declared, expected: VERTEX_RECORD_SIZE }),
    }
}

/// Builds the bind-group layout for a storage view whose element stride is
/// declared as `declared_stride`. It fails on any stride but the vertex
/// record size: a wrong stride would have the shaders read across records.
pub fn bind_group_layout_entries(declared_stride: u64) -> (r: Result<Vec<BindLayoutEntry>, LayoutMismatch>)
    ensures
        r is Ok <==> declared_stride == VERTEX_RECORD_SIZE,
        r matches Ok(v) ==> v@ == bubbles_layout_spec(),
        r matches Err(e) ==> e == (LayoutMismatch { declared: declared_stride, expected: VERTEX_RECORD_SIZE }),
{
    match check_stride(declared_stride) {
        Err(e) => Err(e),
        Ok(()) => {
            let v = vec![
                BindLayoutEntry {
                    binding: UNIFORM_BINDING,
                    visibility: ShaderStages::Fragment,
                    kind: BindingKind::Uniform { min_size: UNIFORM_SIZE },
                },
                BindLayoutEntry {
                    binding: STORAGE_BINDING,
                    visibility: ShaderStages::VertexFragment,
                    kind: BindingKind::ReadOnlyStorage { element_stride: declared_stride },
                },
            ];
            assert(v@ =~= bubbles_layout_spec());
            Ok(v)
        },
    }
}

/// Whether a vertex buffer advances per vertex or per instance.
#[derive(Clone, Copy, Debug, PartialEq, Eq, Structural)]
pub enum VertexStepMode {
    Vertex,
    Instance,
}

/// One attribute read from a vertex buffer.
#[derive(Clone, Copy, Debug, PartialEq, Eq, Structural)]
pub struct VertexAttribute {
    pub format: VertexFormat,
    pub offset: u64,
    pub shader_location: u32,
}

/// How the pipeline reads one vertex buffer.
#[derive(Clone, Debug, PartialEq, Eq)]
pub struct VertexBufferLayout {
    pub array_stride: u64,
    pub step_mode: VertexStepMode,
    pub attributes: Vec<VertexAttribute>,
}

/// The quad's vertex buffer: one position of three floats per vertex, read
/// at shader location 0.
pub open spec fn is_quad_vertex_layout(l: VertexBufferLayout) -> bool {
    &&& l.array_stride == QUAD_VERTEX_STRIDE
    &&& l.step_mode == VertexStepMode::Vertex
    &&& l.attributes@ == seq![
        VertexAttribute { format: VertexFormat::Float32x3, offset: 0, shader_location: 0 },
    ]
}

/// The layout of the quad vertex buffer, the pipeline's only vertex input.
pub fn quad_vertex_buffer_layout() -> (r: VertexBufferLayout)
    ensures
        is_quad_vertex_layout(r),
{
    let attributes = vec![
        VertexAttribute { format: VertexFormat::Float32x3, offset: 0, shader_location: 0 },
    ];
    assert(attributes@ =~= seq![
        VertexAttribute { format: VertexFormat::Float32x3, offset: 0, shader_location: 0 },
    ]);
    VertexBufferLayout { array_stride: QUAD_VERTEX_STRIDE, step_mode: VertexStepMode::Vertex, attributes }
}

} // verus!

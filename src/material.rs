//! The two materials and what they change in their render pipelines.
//!
//! Float parameters are carried as the bit patterns of 32-bit floats: the
//! library only stores and compares them; the shaders do the arithmetic.
use vstd::prelude::*;

use crate::layout::{is_quad_vertex_layout, quad_vertex_buffer_layout, VertexBufferLayout};

verus! {

/// Bits of the float 1.0.
pub const ONE: u32 = 0x3F80_0000;

/// Parameters of the bubble-dissolve material.
#[derive(Clone, Copy, Debug, PartialEq, Eq, Structural)]
pub struct Bubbles {
    /// How big the bubbles are: the bits of a 32-bit float.
    pub bubble_radius: u32,
}

impl Default for Bubbles {
    fn default() -> (r: Self)
        ensures
            r.bubble_radius == ONE,
    {
        Bubbles { bubble_radius: ONE }
    }
}

/// Parameters of the material that displaces vertices with noise.
#[derive(Clone, Copy, Debug, PartialEq, Eq, Structural)]
pub struct NoisyVerts {
    /// How far, at most, vertices are moved: float bits.
    pub noise_magnitude: u32,
    /// The spatial scale of the noise: float bits.
    pub noise_scale: u32,
    /// How fast the noise moves: float bits.
    pub time_scale: u32,
}

impl Default for NoisyVerts {
    fn default() -> (r: Self)
        ensures
            r.noise_magnitude == ONE,
            r.noise_scale == ONE,
            r.time_scale == ONE,
    {
        NoisyVerts { noise_magnitude: ONE, noise_scale: ONE, time_scale: ONE }
    }
}

/// The parts of a render pipeline description that the materials edit.
#[derive(Clone, Debug, PartialEq, Eq)]
pub struct PipelineDescriptor {
    pub label: Option<String>,
    pub vertex_buffers: Vec<VertexBufferLayout>,
}

/// Relies on `String::push_str`: appends `t` to `s`.
#[verifier::external_body]
fn push_str(s: &mut String, t: &str)
    ensures
        final(s)@ == old(s)@ + t@,
{
    s.push_str(t)
}

/// `label` with `prefix` put in front of it.
fn prefixed(prefix: &str, label: &String) -> (r: String)
    ensures
        r@ == prefix@ + label@,
{
    let mut r = prefix.to_owned();
    push_str(&mut r, label.as_str());
    r
}

/// The label with `prefix` in front, where there is a label.
pub open spec fn prefixed_label(prefix: Seq<char>, label: Option<String>) -> Option<Seq<char>> {
    match label {
        Some(l) => Some(prefix + l@),
        None => None,
    }
}

pub open spec fn label_view(label: Option<String>) -> Option<Seq<char>> {
    match label {
        Some(l) => Some(l@),
        None => None,
    }
}

impl Bubbles {
    /// Path of the vertex shader.
    pub fn vertex_shader() -> (r: &'static str)
        ensures
            r@ == "shaders/bubbles.wgsl"@,
    {
        "shaders/bubbles.wgsl"
    }

    /// Path of the fragment shader: the same file as the vertex shader.
    pub fn fragment_shader() -> (r: &'static str)
        ensures
            r@ == "shaders/bubbles.wgsl"@,
    {
        "shaders/bubbles.wgsl"
    }

    /// Marks the pipeline's label as a bubbles pipeline and makes the quad
    /// its only vertex input, so that the quad, not the mesh, is rasterized.
    pub fn specialize(descriptor: &mut PipelineDescriptor)
        ensures
            label_view(final(descriptor).label) == prefixed_label("bubbles_"@, old(descriptor).label),
            final(descriptor).vertex_buffers@.len() == 1,
            is_quad_vertex_layout(final(descriptor).vertex_buffers@[0]),
    {
        let label = match &descriptor.label {
            Some(l) => Some(prefixed("bubbles_", l)),
            None => None,
        };
        descriptor.label = label;
        descriptor.vertex_buffers = vec![quad_vertex_buffer_layout()];
    }
}

impl NoisyVerts {
    /// Path of the vertex shader.
    pub fn vertex_shader() -> (r: &'static str)
        ensures
            r@ == "shaders/noisy_verts.wgsl"@,
    {
        "shaders/noisy_verts.wgsl"
    }

    /// Marks the pipeline's label as a noisy-vertex pipeline; the mesh's own
    /// vertex buffers are left as they are.
    pub fn specialize(descriptor: &mut PipelineDescriptor)
        ensures
            label_view(final(descriptor).label) == prefixed_label("noisy_"@, old(descriptor).label),
            final(descriptor).vertex_buffers == old(descriptor).vertex_buffers,
    {
        let label = match &descriptor.label {
            Some(l) => Some(prefixed("noisy_", l)),
            None => None,
        };
        descriptor.label = label;
    }
}

} // verus!

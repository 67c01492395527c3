//! One-time construction data: the uniform buffer, its binding, and the
//! render pipeline.
//!
//! These descriptors pin down everything the core decides about the GPU
//! resources built at startup. The driver translates each field one for
//! one into the backend's descriptor types and performs the creation
//! calls; construction failure there is fatal, with no retry.

use vstd::prelude::*;

verus! {

/// The GPU-resident cursor uniform buffer: 8 bytes (two 32-bit floats),
/// fixed for the lifetime of the context, writable by queue copies.
#[derive(Clone, Copy, PartialEq, Eq, Structural, Debug)]
pub struct UniformBufferDesc {
    /// Size in bytes.
    pub size: u64,
    /// Usable as a uniform buffer.
    pub uniform_usage: bool,
    /// Usable as the destination of queue buffer writes.
    pub copy_dst_usage: bool,
    /// Mapped for CPU access at creation.
    pub mapped_at_creation: bool,
}

/// The single binding of the uniform buffer: slot 0 of group 0, visible to
/// the fragment stage only, no dynamic offset, no minimum-size constraint.
#[derive(Clone, Copy, PartialEq, Eq, Structural, Debug)]
pub struct UniformBindingDesc {
    /// Bind group index the group is attached at.
    pub group: u32,
    /// Binding slot within the group.
    pub binding: u32,
    /// Visible to the fragment stage.
    pub fragment_visible: bool,
    /// Visible to the vertex stage.
    pub vertex_visible: bool,
    /// Bound with a dynamic offset.
    pub has_dynamic_offset: bool,
    /// Declared minimum binding size, if any.
    pub min_binding_size: Option<u64>,
}

/// The fixed-function state of the render pipeline: no vertex buffers
/// (geometry comes from the built-in vertex index), one color target in
/// the surface's format, default triangle-list topology, no depth/stencil,
/// no multisampling.
#[derive(Clone, Copy, PartialEq, Eq, Structural, Debug)]
pub struct PipelineDesc {
    /// Number of vertex input buffers.
    pub vertex_buffer_count: u32,
    /// Number of color targets.
    pub color_target_count: u32,
    /// The color target uses the surface's presentation format.
    pub target_matches_surface_format: bool,
    /// Triangle-list primitive topology (the default).
    pub triangle_list: bool,
    /// A depth/stencil attachment is present.
    pub has_depth_stencil: bool,
    /// Samples per pixel.
    pub sample_count: u32,
}

/// The descriptor of the cursor uniform buffer.
pub fn uniform_buffer_desc() -> (d: UniformBufferDesc)
    ensures
        d.size == 8,
        d.uniform_usage,
        d.copy_dst_usage,
        !d.mapped_at_creation,
{
    UniformBufferDesc { size: 8, uniform_usage: true, copy_dst_usage: true, mapped_at_creation: false }
}

/// The descriptor of the uniform buffer's one binding.
pub fn uniform_binding_desc() -> (d: UniformBindingDesc)
    ensures
        d.group == 0,
        d.binding == 0,
        d.fragment_visible,
        !d.vertex_visible,
        !d.has_dynamic_offset,
        d.min_binding_size is None,
{
    UniformBindingDesc {
        group: 0,
        binding: 0,
        fragment_visible: true,
        vertex_visible: false,
        has_dynamic_offset: false,
        min_binding_size: None,
    }
}

/// The descriptor of the render pipeline's fixed-function state.
pub fn pipeline_desc() -> (d: PipelineDesc)
    ensures
        d.vertex_buffer_count == 0,
        d.color_target_count == 1,
        d.target_matches_surface_format,
        d.triangle_list,
        !d.has_depth_stencil,
        d.sample_count == 1,
{
    PipelineDesc {
        vertex_buffer_count: 0,
        color_target_count: 1,
        target_matches_surface_format: true,
        triangle_list: true,
        has_depth_stencil: false,
        sample_count: 1,
    }
}

} // verus!

//! The pipeline registry and the per-frame bind group.
//!
//! The registry declares one binding slot — a read-write 2D storage texture
//! visible to compute stages — and requests two compute pipelines from a
//! single shader, distinguished only by their entry point names. Compilation
//! is asynchronous and engine-owned; the registry keeps the opaque ids the
//! cache handed back. The bind group is rebuilt every queueing phase from the
//! current GPU view of the shared texture.

use vstd::prelude::*;
use vstd::string::StringExecFns;

verus! {

/// How a shader may access a storage texture binding.
#[derive(Clone, Copy, Debug, PartialEq, Eq, Structural)]
pub enum TextureAccess {
    ReadOnly,
    WriteOnly,
    ReadWrite,
}

/// The dimensionality of a texture binding.
#[derive(Clone, Copy, Debug, PartialEq, Eq, Structural)]
pub enum TextureDimension {
    D1,
    D2,
    D3,
}

/// The pixel format of the shared simulation texture.
#[derive(Clone, Copy, Debug, PartialEq, Eq, Structural)]
pub enum TextureFormat {
    Rgba8Unorm,
}

/// The shader stage a binding is visible to.
#[derive(Clone, Copy, Debug, PartialEq, Eq, Structural)]
pub enum ShaderStage {
    Vertex,
    Fragment,
    Compute,
}

/// The single entry of the bind-group layout: which slot it occupies, which
/// stage sees it, and what kind of texture binding it is.
#[derive(Clone, Copy, Debug, PartialEq, Eq, Structural)]
pub struct BindGroupLayoutEntry {
    pub binding: u32,
    pub visibility: ShaderStage,
    pub access: TextureAccess,
    pub format: TextureFormat,
    pub view_dimension: TextureDimension,
}

/// The layout the registry declares: exactly one binding slot.
#[derive(Clone, Copy, Debug, PartialEq, Eq, Structural)]
pub struct BindGroupLayout {
    pub entry: BindGroupLayoutEntry,
}

/// Opaque id of a compute pipeline queued with the engine's pipeline cache.
#[derive(Clone, Copy, Debug, PartialEq, Eq, Structural)]
pub struct CachedComputePipelineId(pub u64);

/// What a compute pipeline is compiled from: the declared layout and the
/// entry point to use inside the shared shader module.
pub struct ComputePipelineDescriptor {
    pub layout: BindGroupLayout,
    pub entry_point: String,
}

/// Opaque id of the GPU-side view of the shared texture.
#[derive(Clone, Copy, Debug, PartialEq, Eq, Structural)]
pub struct TextureViewId(pub u64);

/// A binding of the texture view to slot 0 of the declared layout.
#[derive(Clone, Copy, Debug, PartialEq, Eq, Structural)]
pub struct BindGroup {
    pub layout: BindGroupLayout,
    pub binding: u32,
    pub texture_view: TextureViewId,
}

/// The bind group consumed by dispatch, rebuilt every queueing phase.
#[derive(Clone, Copy, Debug, PartialEq, Eq, Structural)]
pub struct GameOfLifeImageBindGroup(pub BindGroup);

/// The pipeline registry: the declared layout and the ids of the two
/// pipelines whose compilation was requested.
#[derive(Clone, Copy, Debug, PartialEq, Eq, Structural)]
pub struct GameOfLifePipeline {
    pub texture_bind_group_layout: BindGroupLayout,
    pub init_pipeline: CachedComputePipelineId,
    pub update_pipeline: CachedComputePipelineId,
}

/// The layout entry the registry declares: slot 0, compute-visible,
/// read-write 2D storage texture in the fixed pixel format.
pub open spec fn spec_layout() -> BindGroupLayout {
    BindGroupLayout {
        entry: BindGroupLayoutEntry {
            binding: 0,
            visibility: ShaderStage::Compute,
            access: TextureAccess::ReadWrite,
            format: TextureFormat::Rgba8Unorm,
            view_dimension: TextureDimension::D2,
        },
    }
}

/// Builds the one bind-group layout both pipelines share.
pub fn texture_bind_group_layout() -> (layout: BindGroupLayout)
    ensures
        layout == spec_layout(),
{
    BindGroupLayout {
        entry: BindGroupLayoutEntry {
            binding: 0,
            visibility: ShaderStage::Compute,
            access: TextureAccess::ReadWrite,
            format: TextureFormat::Rgba8Unorm,
            view_dimension: TextureDimension::D2,
        },
    }
}

/// Descriptor of the init pipeline: the shared layout, entry point "init".
pub fn init_pipeline_descriptor(layout: BindGroupLayout) -> (descriptor: ComputePipelineDescriptor)
    ensures
        descriptor.layout == layout,
        descriptor.entry_point@ == "init"@,
{
    ComputePipelineDescriptor { layout, entry_point: String::from_str("init") }
}

/// Descriptor of the update pipeline: the shared layout, entry point
/// "update".
pub fn update_pipeline_descriptor(layout: BindGroupLayout) -> (descriptor: ComputePipelineDescriptor)
    ensures
        descriptor.layout == layout,
        descriptor.entry_point@ == "update"@,
{
    ComputePipelineDescriptor { layout, entry_point: String::from_str("update") }
}

impl GameOfLifePipeline {
    /// Records the registry once the cache has handed back the two pipeline
    /// ids it assigned to the queued descriptors. The ids are opaque and
    /// treated as immutable from here on.
    pub fn new(
        init_pipeline: CachedComputePipelineId,
        update_pipeline: CachedComputePipelineId,
    ) -> (pipeline: GameOfLifePipeline)
        ensures
            pipeline.texture_bind_group_layout == spec_layout(),
            pipeline.init_pipeline == init_pipeline,
            pipeline.update_pipeline == update_pipeline,
    {
        GameOfLifePipeline {
            texture_bind_group_layout: texture_bind_group_layout(),
            init_pipeline,
            update_pipeline,
        }
    }
}

/// The bind group a queueing phase produces for a given registry and a given
/// view of the shared texture.
pub open spec fn spec_bind_group(
    pipeline: GameOfLifePipeline,
    texture_view: TextureViewId,
) -> BindGroup {
    BindGroup {
        layout: pipeline.texture_bind_group_layout,
        binding: 0,
        texture_view,
    }
}

/// Queueing phase: binds the current GPU view of the shared texture to slot
/// 0 of the registry's layout. The caller replaces any previously stored
/// bind group with the result.
pub fn queue_bind_group(
    pipeline: &GameOfLifePipeline,
    texture_view: TextureViewId,
) -> (bind_group: GameOfLifeImageBindGroup)
    ensures
        bind_group.0 == spec_bind_group(*pipeline, texture_view),
{
    GameOfLifeImageBindGroup(BindGroup {
        layout: pipeline.texture_bind_group_layout,
        binding: 0,
        texture_view,
    })
}

/// Rebuilding the bind group is stable: two queueing phases that see the
/// same view of the shared texture — which never changes after startup —
/// produce bind groups that refer to that same view, whatever else happened
/// in between.
pub proof fn lemma_bind_group_rebuild_stable(
    first: GameOfLifePipeline,
    second: GameOfLifePipeline,
    view_a: TextureViewId,
    view_b: TextureViewId,
)
    requires
        view_a == view_b,
    ensures
        spec_bind_group(first, view_a).texture_view == spec_bind_group(second, view_b).texture_view,
        first == second ==> spec_bind_group(first, view_a) == spec_bind_group(second, view_b),
{
}

} // verus!

//! Descriptions of bind groups over whole buffers and of their layouts.

use crate::wgpu_simplified::{low_32_bits, truncate_to_u32};
use vstd::prelude::*;

verus! {

/// The set of shader stages that can see a binding, one bit for each stage.
#[derive(Copy, Clone, Debug, PartialEq, Eq, Structural)]
pub struct ShaderStages {
    pub bits: u32,
}

/// The bit of the vertex stage.
pub const VERTEX: u32 = 1;

/// The bit of the fragment stage.
pub const FRAGMENT: u32 = 2;

/// The bit of the compute stage.
pub const COMPUTE: u32 = 4;

/// How a shader reads a bound buffer.
#[derive(Copy, Clone, Debug, PartialEq, Eq, Structural)]
pub enum BufferBindingType {
    Uniform,
    Storage { read_only: bool },
}

/// One entry of a bind group layout: a buffer at binding number `binding`.
#[derive(Copy, Clone, Debug, PartialEq, Eq)]
pub struct BindGroupLayoutEntry {
    pub binding: u32,
    pub visibility: ShaderStages,
    pub ty: BufferBindingType,
    pub has_dynamic_offset: bool,
    pub min_binding_size: Option<u64>,
    pub count: Option<u32>,
}

/// A bind group layout: a label and the entries in the order of their bindings.
#[derive(Clone, Debug, PartialEq, Eq)]
pub struct BindGroupLayoutDescriptor {
    pub label: &'static str,
    pub entries: Vec<BindGroupLayoutEntry>,
}

/// A bind group: a label and, for each resource in order, its binding number.
#[derive(Clone, Debug, PartialEq, Eq)]
pub struct BindGroupDescriptor {
    pub label: &'static str,
    pub bindings: Vec<u32>,
}

/// The entry at place `index`: a whole buffer of the given type, without a
/// dynamic offset, bound at the low 32 bits of its place.
pub open spec fn buffer_entry(
    index: int,
    visibility: ShaderStages,
    ty: BufferBindingType,
) -> BindGroupLayoutEntry {
    BindGroupLayoutEntry {
        binding: low_32_bits(index),
        visibility,
        ty,
        has_dynamic_offset: false,
        min_binding_size: None,
        count: None,
    }
}

/// One entry for each shader stage, with the binding type of the same place.
pub open spec fn storage_entries(
    shader_stages: Seq<ShaderStages>,
    binding_types: Seq<BufferBindingType>,
) -> Seq<BindGroupLayoutEntry> {
    Seq::new(shader_stages.len(), |i: int| buffer_entry(i, shader_stages[i], binding_types[i]))
}

/// One uniform buffer entry for each shader stage.
pub open spec fn uniform_entries(shader_stages: Seq<ShaderStages>) -> Seq<BindGroupLayoutEntry> {
    Seq::new(
        shader_stages.len(),
        |i: int| buffer_entry(i, shader_stages[i], BufferBindingType::Uniform),
    )
}

/// The binding numbers of `count` resources: each is bound at the low 32 bits of its place.
pub open spec fn resource_bindings(count: usize) -> Seq<u32> {
    Seq::new(count as nat, |i: int| low_32_bits(i))
}

/// Describes the layout of a bind group of buffers, one for each shader
/// stage, with the binding type of the same place.
pub fn create_bind_group_layout_storage(
    shader_stages: Vec<ShaderStages>,
    binding_types: Vec<BufferBindingType>,
) -> (layout: BindGroupLayoutDescriptor)
    requires
        shader_stages.len() <= binding_types.len(),
    ensures
        layout.label@ == "Bind Group Layout"@,
        layout.entries@ == storage_entries(shader_stages@, binding_types@),
{
    let mut entries: Vec<BindGroupLayoutEntry> = Vec::new();
    let mut i: usize = 0;
    while i < shader_stages.len()
        invariant
            i <= shader_stages.len() <= binding_types.len(),
            entries@ == storage_entries(shader_stages@.take(i as int), binding_types@),
        decreases shader_stages.len() - i,
    {
        entries.push(
            BindGroupLayoutEntry {
                binding: truncate_to_u32(i),
                visibility: shader_stages[i],
                ty: binding_types[i],
                has_dynamic_offset: false,
                min_binding_size: None,
                count: None,
            },
        );
        i += 1;
        assert(entries@ =~= storage_entries(shader_stages@.take(i as int), binding_types@));
    }
    assert(shader_stages@.take(i as int) =~= shader_stages@);
    BindGroupLayoutDescriptor { label: "Bind Group Layout", entries }
}

/// Describes a bind group of `resources` buffers with its layout, as
/// `create_bind_group_layout_storage` describes it.
pub fn create_bind_group_storage(
    shader_stages: Vec<ShaderStages>,
    binding_types: Vec<BufferBindingType>,
    resources: usize,
) -> (group: (BindGroupLayoutDescriptor, BindGroupDescriptor))
    requires
        shader_stages.len() <= binding_types.len(),
    ensures
        group.0.label@ == "Bind Group Layout"@,
        group.0.entries@ == storage_entries(shader_stages@, binding_types@),
        group.1.label@ == "Bind Group"@,
        group.1.bindings@ == resource_bindings(resources),
{
    let bindings = number_resources(resources);
    let layout = create_bind_group_layout_storage(shader_stages, binding_types);
    (layout, BindGroupDescriptor { label: "Bind Group", bindings })
}

/// Describes the layout of a bind group of uniform buffers, one for each shader stage.
pub fn create_bind_group_layout(shader_stages: Vec<ShaderStages>) -> (layout:
    BindGroupLayoutDescriptor)
    ensures
        layout.label@ == "Uniform Bind Group Layout"@,
        layout.entries@ == uniform_entries(shader_stages@),
{
    let mut entries: Vec<BindGroupLayoutEntry> = Vec::new();
    let mut i: usize = 0;
    while i < shader_stages.len()
        invariant
            i <= shader_stages.len(),
            entries@ == uniform_entries(shader_stages@.take(i as int)),
        decreases shader_stages.len() - i,
    {
        entries.push(
            BindGroupLayoutEntry {
                binding: truncate_to_u32(i),
                visibility: shader_stages[i],
                ty: BufferBindingType::Uniform,
                has_dynamic_offset: false,
                min_binding_size: None,
                count: None,
            },
        );
        i += 1;
        assert(entries@ =~= uniform_entries(shader_stages@.take(i as int)));
    }
    assert(shader_stages@.take(i as int) =~= shader_stages@);
    BindGroupLayoutDescriptor { label: "Uniform Bind Group Layout", entries }
}

/// Describes a bind group of `resources` uniform buffers with its layout, as
/// `create_bind_group_layout` describes it.
pub fn create_bind_group(shader_stages: Vec<ShaderStages>, resources: usize) -> (group: (
    BindGroupLayoutDescriptor,
    BindGroupDescriptor,
))
    ensures
        group.0.label@ == "Uniform Bind Group Layout"@,
        group.0.entries@ == uniform_entries(shader_stages@),
        group.1.label@ == "Uniform Bind Group"@,
        group.1.bindings@ == resource_bindings(resources),
{
    let bindings = number_resources(resources);
    let layout = create_bind_group_layout(shader_stages);
    (layout, BindGroupDescriptor { label: "Uniform Bind Group", bindings })
}

/// Bindings count up from zero: up to the largest binding number, the entry
/// and the resource at a place are bound at the number of that place, so no
/// two of them share a binding.
pub proof fn lemma_bindings_count_up(
    shader_stages: Seq<ShaderStages>,
    binding_types: Seq<BufferBindingType>,
    count: usize,
)
    ensures
        forall|i: int|
            0 <= i < shader_stages.len() && i <= u32::MAX ==> (#[trigger] uniform_entries(
                shader_stages,
            )[i]).binding == i,
        forall|i: int|
            0 <= i < shader_stages.len() && i <= u32::MAX ==> (#[trigger] storage_entries(
                shader_stages,
                binding_types,
            )[i]).binding == i,
        forall|i: int|
            0 <= i < count && i <= u32::MAX ==> #[trigger] resource_bindings(count)[i] == i,
{
    assert forall|i: int| 0 <= i <= u32::MAX implies #[trigger] low_32_bits(i) == i by {
        assert(i % 0x1_0000_0000 == i);
    }
}

/// Numbers `count` resources by their places.
fn number_resources(count: usize) -> (bindings: Vec<u32>)
    ensures
        bindings@ == resource_bindings(count),
{
    let mut bindings: Vec<u32> = Vec::new();
    let mut i: usize = 0;
    while i < count
        invariant
            i <= count,
            bindings@ == resource_bindings(i),
        decreases count - i,
    {
        bindings.push(truncate_to_u32(i));
        i += 1;
        assert(bindings@ =~= resource_bindings(i));
    }
    bindings
}

} // verus!

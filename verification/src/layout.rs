//! The fixed shape of the effect pipeline: the three bindings of its bind
//! group, in their order, and its fixed-function state.

use vstd::prelude::*;
use crate::extract::RenderViewUniform;

verus! {

/// Number of bindings of the effect's bind group.
pub const BINDING_COUNT: usize = 3;

/// Vertices of the one draw of a pass: a triangle that covers the screen,
/// made in the vertex stage.
pub const FULLSCREEN_VERTICES: u32 = 3;

/// What kind of resource a binding takes.
#[derive(Clone, Copy, Debug, PartialEq, Eq, Structural)]
pub enum BindingKind {
    /// A two-dimensional, filterable float texture, not multisampled.
    Texture,
    /// A filtering sampler.
    Sampler,
    /// A uniform buffer without dynamic offset.
    Uniform,
}

/// One entry of the bind-group layout. Every entry is visible to the fragment
/// stage only.
#[derive(Clone, Copy, Debug, PartialEq, Eq, Structural)]
pub struct LayoutEntry {
    pub binding: u32,
    pub kind: BindingKind,
}

/// A resource bound for one draw.
#[derive(Clone, Copy, Debug, PartialEq, Eq, Structural)]
pub enum Resource {
    TextureView(u64),
    Sampler(u64),
    Uniform(RenderViewUniform),
}

/// One entry of a bind group.
#[derive(Clone, Copy, Debug, PartialEq, Eq, Structural)]
pub struct BindGroupEntry {
    pub binding: u32,
    pub resource: Resource,
}

/// The resources of one draw: the texture view that is read, the sampler, and
/// the uniform of the view.
#[derive(Clone, Copy, Debug, PartialEq, Eq, Structural)]
pub struct BindGroup {
    pub source: u64,
    pub sampler: u64,
    pub uniform: RenderViewUniform,
}

/// The fixed-function state of the effect pipeline.
#[derive(Clone, Copy, Debug, PartialEq, Eq, Structural)]
pub struct FixedState {
    /// Vertex buffers that the draw reads: none.
    pub vertex_buffers: u32,
    /// Colour targets that the draw writes: one.
    pub color_targets: u32,
    /// Whether the written colour replaces what the target held.
    pub blend_replace: bool,
    /// Whether depth or stencil is tested.
    pub depth_stencil: bool,
    /// Samples per pixel.
    pub samples: u32,
}

pub open spec fn kind_of(resource: Resource) -> BindingKind {
    match resource {
        Resource::TextureView(_) => BindingKind::Texture,
        Resource::Sampler(_) => BindingKind::Sampler,
        Resource::Uniform(_) => BindingKind::Uniform,
    }
}

/// The layout: texture at binding 0, sampler at 1, uniform at 2.
pub open spec fn layout_entries() -> Seq<LayoutEntry> {
    seq![
        LayoutEntry { binding: 0, kind: BindingKind::Texture },
        LayoutEntry { binding: 1, kind: BindingKind::Sampler },
        LayoutEntry { binding: 2, kind: BindingKind::Uniform },
    ]
}

/// The entries of a bind group, in the layout's order.
pub open spec fn group_entries(group: BindGroup) -> Seq<BindGroupEntry> {
    seq![
        BindGroupEntry { binding: 0, resource: Resource::TextureView(group.source) },
        BindGroupEntry { binding: 1, resource: Resource::Sampler(group.sampler) },
        BindGroupEntry { binding: 2, resource: Resource::Uniform(group.uniform) },
    ]
}

/// The fixed-function state: no vertex buffer, one colour target that is
/// overwritten, no depth or stencil test, one sample per pixel.
pub open spec fn fixed_state() -> FixedState {
    FixedState {
        vertex_buffers: 0,
        color_targets: 1,
        blend_replace: true,
        depth_stencil: false,
        samples: 1,
    }
}

/// The bind-group layout of the effect pipeline.
pub fn effect_layout() -> (layout: Vec<LayoutEntry>)
    ensures
        layout@ == layout_entries(),
        layout@.len() == BINDING_COUNT,
{
    let mut layout: Vec<LayoutEntry> = Vec::new();
    layout.push(LayoutEntry { binding: 0, kind: BindingKind::Texture });
    layout.push(LayoutEntry { binding: 1, kind: BindingKind::Sampler });
    layout.push(LayoutEntry { binding: 2, kind: BindingKind::Uniform });
    proof {
        assert(layout@ =~= layout_entries());
    }
    layout
}

/// The fixed-function state of the effect pipeline.
pub fn effect_fixed_state() -> (state: FixedState)
    ensures
        state == fixed_state(),
{
    FixedState {
        vertex_buffers: 0,
        color_targets: 1,
        blend_replace: true,
        depth_stencil: false,
        samples: 1,
    }
}

impl BindGroup {
    /// The entries to hand to the device, in the layout's order.
    pub fn entries(&self) -> (entries: Vec<BindGroupEntry>)
        ensures
            entries@ == group_entries(*self),
            entries@.len() == BINDING_COUNT,
    {
        let mut entries: Vec<BindGroupEntry> = Vec::new();
        entries.push(BindGroupEntry { binding: 0, resource: Resource::TextureView(self.source) });
        entries.push(BindGroupEntry { binding: 1, resource: Resource::Sampler(self.sampler) });
        entries.push(BindGroupEntry { binding: 2, resource: Resource::Uniform(self.uniform) });
        proof {
            assert(entries@ =~= group_entries(*self));
        }
        entries
    }
}

/// Every bind group fits the layout: it has as many entries, and each sits at
/// the binding, and is of the kind, that the layout gives for its place.
pub proof fn bind_group_fits_layout(group: BindGroup)
    ensures
        group_entries(group).len() == layout_entries().len(),
        forall|i: int|
            0 <= i < layout_entries().len() ==> {
                &&& (#[trigger] group_entries(group)[i]).binding == layout_entries()[i].binding
                &&& kind_of(group_entries(group)[i].resource) == layout_entries()[i].kind
            },
{
}

} // verus!

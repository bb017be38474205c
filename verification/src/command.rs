//! The calls the renderer asks its device to make, as plain data.
//!
//! A render call does not touch the device. It returns the calls to make, in
//! order, and the embedding layer makes them.

use vstd::prelude::*;
use crate::image::TextureId;
use crate::texture::{Format, Usage};

verus! {

/// A device object, known by the number under which the embedding layer
/// keeps it.
#[derive(Clone, Copy, PartialEq, Eq, Structural, Debug, Hash)]
pub struct Handle(pub u64);

/// What is bound at one place of the pipeline: an object or nothing.
pub type Slot = Option<Handle>;

/// The primitive topology "triangle list".
pub const TRIANGLE_LIST: i32 = 4;

/// The bit pattern of the 32-bit float 0.0.
pub const FLOAT_ZERO: u32 = 0;

/// The bit pattern of the 32-bit float 1.0.
pub const FLOAT_ONE: u32 = 0x3f80_0000;

/// Bytes of one vertex: position and texture coordinate, two 32-bit floats
/// each, and a colour of four.
pub const VERTEX_STRIDE: u32 = 32;

/// Bytes of one index.
pub const INDEX_STRIDE: u32 = 4;

/// The part of the render target that is drawn to. The depths are 32-bit
/// floats, kept as their bit patterns.
#[derive(Clone, Copy, PartialEq, Eq, Structural, Debug)]
pub struct Viewport {
    pub top_left_x: i32,
    pub top_left_y: i32,
    pub width: u32,
    pub height: u32,
    pub min_depth: u32,
    pub max_depth: u32,
}

/// What a buffer is bound as.
#[derive(Clone, Copy, PartialEq, Eq, Structural, Debug)]
pub enum BufferKind {
    Vertex,
    Index,
}

/// What the device is asked for when a buffer is made.
#[derive(Clone, Copy, PartialEq, Eq, Structural, Debug)]
pub struct BufferDesc {
    pub byte_width: u64,
    pub usage: Usage,
    pub kind: BufferKind,
}

/// One call on the device. `primitive` is the position of a mesh in the
/// frame's list of primitives: the embedding layer holds its vertices,
/// indices and clip rectangle.
#[derive(Clone, PartialEq, Eq, Debug)]
pub enum Command {
    SetPrimitiveTopology(i32),
    SetInputLayout(Slot),
    SetVertexShader(Slot),
    SetPixelShader(Slot),
    SetRasterizerState(Slot),
    /// Replaces all viewports.
    SetViewports(Vec<Viewport>),
    /// Binds `samplers` to consecutive pixel-shader sampler slots from
    /// `start` on.
    SetSamplers { start: usize, samplers: Vec<Slot> },
    /// Binds `targets` to the first render-target slots, empties the others,
    /// and binds the depth-stencil view.
    SetRenderTargets { targets: Vec<Slot>, depth_stencil: Slot },
    /// `factor` holds four 32-bit floats as their bit patterns.
    SetBlendState { state: Slot, factor: [u32; 4], sample_mask: u32 },
    SetDepthStencilState { state: Slot, stencil_ref: u32 },
    /// Makes the index buffer of a mesh, filled with its indices.
    CreateIndexBuffer { primitive: usize, desc: BufferDesc },
    /// Makes the vertex buffer of a mesh, filled with its vertices in
    /// normalised device coordinates.
    CreateVertexBuffer { primitive: usize, desc: BufferDesc },
    /// Binds the vertex buffer made for a mesh to input slot 0.
    SetVertexBuffer { primitive: usize, stride: u32, offset: u32 },
    /// Binds the index buffer made for a mesh.
    SetIndexBuffer { primitive: usize, format: Format, offset: u32 },
    /// Sets the one scissor rectangle to the clip rectangle of a mesh, in
    /// physical pixels.
    SetScissorRect { primitive: usize },
    /// Binds the pool's resource for `texture` to pixel-shader resource
    /// slot 0.
    SetShaderResource { texture: TextureId },
    DrawIndexed { index_count: u32, start_index: u32, base_vertex: i32 },
}

/// A call as specifications see it: lists are sequences.
pub enum CommandView {
    SetPrimitiveTopology(i32),
    SetInputLayout(Slot),
    SetVertexShader(Slot),
    SetPixelShader(Slot),
    SetRasterizerState(Slot),
    SetViewports(Seq<Viewport>),
    SetSamplers { start: usize, samplers: Seq<Slot> },
    SetRenderTargets { targets: Seq<Slot>, depth_stencil: Slot },
    SetBlendState { state: Slot, factor: [u32; 4], sample_mask: u32 },
    SetDepthStencilState { state: Slot, stencil_ref: u32 },
    CreateIndexBuffer { primitive: usize, desc: BufferDesc },
    CreateVertexBuffer { primitive: usize, desc: BufferDesc },
    SetVertexBuffer { primitive: usize, stride: u32, offset: u32 },
    SetIndexBuffer { primitive: usize, format: Format, offset: u32 },
    SetScissorRect { primitive: usize },
    SetShaderResource { texture: TextureId },
    DrawIndexed { index_count: u32, start_index: u32, base_vertex: i32 },
}

impl View for Command {
    type V = CommandView;

    open spec fn view(&self) -> CommandView {
        match *self {
            Command::SetPrimitiveTopology(t) => CommandView::SetPrimitiveTopology(t),
            Command::SetInputLayout(h) => CommandView::SetInputLayout(h),
            Command::SetVertexShader(h) => CommandView::SetVertexShader(h),
            Command::SetPixelShader(h) => CommandView::SetPixelShader(h),
            Command::SetRasterizerState(h) => CommandView::SetRasterizerState(h),
            Command::SetViewports(v) => CommandView::SetViewports(v@),
            Command::SetSamplers { start, samplers } => CommandView::SetSamplers {
                start,
                samplers: samplers@,
            },
            Command::SetRenderTargets { targets, depth_stencil } => CommandView::SetRenderTargets {
                targets: targets@,
                depth_stencil,
            },
            Command::SetBlendState { state, factor, sample_mask } => CommandView::SetBlendState {
                state,
                factor,
                sample_mask,
            },
            Command::SetDepthStencilState { state, stencil_ref } => CommandView::SetDepthStencilState {
                state,
                stencil_ref,
            },
            Command::CreateIndexBuffer { primitive, desc } => CommandView::CreateIndexBuffer {
                primitive,
                desc,
            },
            Command::CreateVertexBuffer { primitive, desc } => CommandView::CreateVertexBuffer {
                primitive,
                desc,
            },
            Command::SetVertexBuffer { primitive, stride, offset } => CommandView::SetVertexBuffer {
                primitive,
                stride,
                offset,
            },
            Command::SetIndexBuffer { primitive, format, offset } => CommandView::SetIndexBuffer {
                primitive,
                format,
                offset,
            },
            Command::SetScissorRect { primitive } => CommandView::SetScissorRect { primitive },
            Command::SetShaderResource { texture } => CommandView::SetShaderResource { texture },
            Command::DrawIndexed { index_count, start_index, base_vertex } => CommandView::DrawIndexed {
                index_count,
                start_index,
                base_vertex,
            },
        }
    }
}

/// A list of calls as specifications see it.
pub open spec fn views(commands: Seq<Command>) -> Seq<CommandView> {
    commands.map_values(|c: Command| c@)
}

/// Appending a call to a list appends its view to the list's views.
pub proof fn lemma_views_push(commands: Seq<Command>, c: Command)
    ensures
        views(commands.push(c)) == views(commands).push(c@),
{
    assert(views(commands.push(c)) =~= views(commands).push(c@));
}

/// Adds one call to `out`.
pub(crate) fn emit(out: &mut Vec<Command>, c: Command)
    ensures
        views(final(out)@) == views(old(out)@).push(c@),
{
    proof {
        lemma_views_push(out@, c);
    }
    out.push(c);
}

/// A copy of a list of plain values.
pub fn copied<T: Copy>(v: &Vec<T>) -> (out: Vec<T>)
    ensures
        out@ == v@,
{
    let mut out: Vec<T> = Vec::new();
    let mut i: usize = 0;
    while i < v.len()
        invariant
            i <= v@.len(),
            out@ == v@.take(i as int),
        decreases v@.len() - i,
    {
        out.push(v[i]);
        assert(v@.take(i as int).push(v@[i as int]) =~= v@.take(i + 1));
        i += 1;
    }
    assert(v@.take(i as int) =~= v@);
    out
}

} // verus!

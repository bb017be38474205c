//! A state block: the bindings of the pipeline that a render call
//! overwrites, kept so that they can be put back afterwards.
//!
//! It stands in for the device's own state-block object, which not every
//! implementation of the device offers.

use vstd::prelude::*;
use crate::command::{copied, emit, views, Command, CommandView, Slot, Viewport};
use crate::pipeline::Pipeline;

verus! {

/// Sampler slots of the pixel-shader stage.
pub const SAMPLER_SLOTS: usize = 16;

/// Render targets that can be bound at once.
pub const RENDER_TARGET_SLOTS: usize = 8;

/// The value of every binding that a state block covers.
#[derive(Clone, PartialEq, Eq, Debug)]
pub struct StateBlock {
    pub primitive_topology: i32,
    pub input_layout: Slot,
    pub vertex_shader: Slot,
    pub pixel_shader: Slot,
    pub rasterizer_state: Slot,
    pub viewports: Vec<Viewport>,
    /// The pixel-shader sampler slots, from slot 0.
    pub sampler_states: Vec<Slot>,
    /// The render-target slots, from slot 0.
    pub render_targets: Vec<Slot>,
    pub depth_stencil_view: Slot,
    pub blend_state: Slot,
    /// Four 32-bit floats as their bit patterns.
    pub blend_factor: [u32; 4],
    pub sample_mask: u32,
    pub depth_stencil_state: Slot,
    pub stencil_ref: u32,
}

/// A state block as specifications see it: lists are sequences.
pub struct StateBlockView {
    pub primitive_topology: i32,
    pub input_layout: Slot,
    pub vertex_shader: Slot,
    pub pixel_shader: Slot,
    pub rasterizer_state: Slot,
    pub viewports: Seq<Viewport>,
    pub sampler_states: Seq<Slot>,
    pub render_targets: Seq<Slot>,
    pub depth_stencil_view: Slot,
    pub blend_state: Slot,
    pub blend_factor: [u32; 4],
    pub sample_mask: u32,
    pub depth_stencil_state: Slot,
    pub stencil_ref: u32,
}

impl StateBlockView {
    /// The block holds every sampler slot and every render-target slot.
    pub open spec fn wf(&self) -> bool {
        &&& self.sampler_states.len() == SAMPLER_SLOTS
        &&& self.render_targets.len() == RENDER_TARGET_SLOTS
    }

    /// The calls that write the block back, one per category: topology,
    /// input layout, the two shaders, rasterizer state, viewports, samplers
    /// from slot 0, render targets with the depth-stencil view, blend state
    /// with factor and mask, depth-stencil state with its reference.
    pub open spec fn restore(&self) -> Seq<CommandView> {
        seq![
            CommandView::SetPrimitiveTopology(self.primitive_topology),
            CommandView::SetInputLayout(self.input_layout),
            CommandView::SetVertexShader(self.vertex_shader),
            CommandView::SetPixelShader(self.pixel_shader),
            CommandView::SetRasterizerState(self.rasterizer_state),
            CommandView::SetViewports(self.viewports),
            CommandView::SetSamplers { start: 0, samplers: self.sampler_states },
            CommandView::SetRenderTargets {
                targets: self.render_targets,
                depth_stencil: self.depth_stencil_view,
            },
            CommandView::SetBlendState {
                state: self.blend_state,
                factor: self.blend_factor,
                sample_mask: self.sample_mask,
            },
            CommandView::SetDepthStencilState {
                state: self.depth_stencil_state,
                stencil_ref: self.stencil_ref,
            },
        ]
    }
}

impl View for StateBlock {
    type V = StateBlockView;

    open spec fn view(&self) -> StateBlockView {
        StateBlockView {
            primitive_topology: self.primitive_topology,
            input_layout: self.input_layout,
            vertex_shader: self.vertex_shader,
            pixel_shader: self.pixel_shader,
            rasterizer_state: self.rasterizer_state,
            viewports: self.viewports@,
            sampler_states: self.sampler_states@,
            render_targets: self.render_targets@,
            depth_stencil_view: self.depth_stencil_view,
            blend_state: self.blend_state,
            blend_factor: self.blend_factor,
            sample_mask: self.sample_mask,
            depth_stencil_state: self.depth_stencil_state,
            stencil_ref: self.stencil_ref,
        }
    }
}

impl StateBlock {
    /// Captures every binding of `device` that a state block covers.
    pub fn new(device: &Pipeline) -> (block: StateBlock)
        ensures
            block@ == device@.bindings,
    {
        let device = &device.bindings;
        StateBlock {
            primitive_topology: device.primitive_topology,
            input_layout: device.input_layout,
            vertex_shader: device.vertex_shader,
            pixel_shader: device.pixel_shader,
            rasterizer_state: device.rasterizer_state,
            viewports: copied(&device.viewports),
            sampler_states: copied(&device.sampler_states),
            render_targets: copied(&device.render_targets),
            depth_stencil_view: device.depth_stencil_view,
            blend_state: device.blend_state,
            blend_factor: device.blend_factor,
            sample_mask: device.sample_mask,
            depth_stencil_state: device.depth_stencil_state,
            stencil_ref: device.stencil_ref,
        }
    }

    /// Appends to `out` the calls that write every captured value back into
    /// the place it was read from, empty slots included.
    pub fn apply(&self, out: &mut Vec<Command>)
        ensures
            views(final(out)@) == views(old(out)@) + self@.restore(),
    {
        let ghost start = views(out@);
        emit(out, Command::SetPrimitiveTopology(self.primitive_topology));
        emit(out, Command::SetInputLayout(self.input_layout));
        emit(out, Command::SetVertexShader(self.vertex_shader));
        emit(out, Command::SetPixelShader(self.pixel_shader));
        emit(out, Command::SetRasterizerState(self.rasterizer_state));
        emit(out, Command::SetViewports(copied(&self.viewports)));
        emit(out, Command::SetSamplers { start: 0, samplers: copied(&self.sampler_states) });
        emit(
            out,
            Command::SetRenderTargets {
                targets: copied(&self.render_targets),
                depth_stencil: self.depth_stencil_view,
            },
        );
        emit(
            out,
            Command::SetBlendState {
                state: self.blend_state,
                factor: self.blend_factor,
                sample_mask: self.sample_mask,
            },
        );
        emit(
            out,
            Command::SetDepthStencilState {
                state: self.depth_stencil_state,
                stencil_ref: self.stencil_ref,
            },
        );
        assert(views(out@) =~= start + self@.restore());
    }
}

} // verus!

//! The pipeline of the device as far as the renderer touches it, and what
//! each call does to it.
//!
//! This is the reference against which the renderer's calls are judged: a
//! device that is driven through `execute` ends in the state that `run`
//! names.

use vstd::prelude::*;
use crate::command::{copied, views, Command, CommandView, Slot};
use crate::image::TextureId;
use crate::state_block::{StateBlock, StateBlockView, RENDER_TARGET_SLOTS, SAMPLER_SLOTS};

verus! {

/// The bindings of the pipeline that the renderer writes to.
#[derive(Clone, PartialEq, Eq, Debug)]
pub struct Pipeline {
    /// The bindings that a state block covers.
    pub bindings: StateBlock,
    /// The mesh whose vertex buffer is bound to input slot 0, if it is one
    /// of this frame's.
    pub vertex_buffer: Option<usize>,
    /// The mesh whose index buffer is bound, if it is one of this frame's.
    pub index_buffer: Option<usize>,
    /// The mesh whose clip rectangle is the scissor rectangle, if it is one
    /// of this frame's.
    pub scissor: Option<usize>,
    /// The texture bound to pixel-shader resource slot 0, if the renderer
    /// bound it.
    pub shader_resource: Option<TextureId>,
}

/// A pipeline as specifications see it.
pub struct PipelineView {
    pub bindings: StateBlockView,
    pub vertex_buffer: Option<usize>,
    pub index_buffer: Option<usize>,
    pub scissor: Option<usize>,
    pub shader_resource: Option<TextureId>,
}

impl View for Pipeline {
    type V = PipelineView;

    open spec fn view(&self) -> PipelineView {
        PipelineView {
            bindings: self.bindings@,
            vertex_buffer: self.vertex_buffer,
            index_buffer: self.index_buffer,
            scissor: self.scissor,
            shader_resource: self.shader_resource,
        }
    }
}

/// Sampler slots after `samplers` were bound from slot `start` on: slots
/// that the call does not reach keep what they held.
pub open spec fn samplers_set(before: Seq<Slot>, start: int, samplers: Seq<Slot>) -> Seq<Slot> {
    Seq::new(
        before.len(),
        |i: int|
            if start <= i < start + samplers.len() {
                samplers[i - start]
            } else {
                before[i]
            },
    )
}

/// Render-target slots after `targets` were bound: slots beyond them are
/// emptied.
pub open spec fn targets_set(before: Seq<Slot>, targets: Seq<Slot>) -> Seq<Slot> {
    Seq::new(
        before.len(),
        |i: int|
            if i < targets.len() {
                targets[i]
            } else {
                None
            },
    )
}

/// The pipeline after one call. Making a buffer and drawing bind nothing.
pub open spec fn step(s: PipelineView, c: CommandView) -> PipelineView {
    match c {
        CommandView::SetPrimitiveTopology(t) => PipelineView {
            bindings: StateBlockView { primitive_topology: t, ..s.bindings },
            ..s
        },
        CommandView::SetInputLayout(h) => PipelineView {
            bindings: StateBlockView { input_layout: h, ..s.bindings },
            ..s
        },
        CommandView::SetVertexShader(h) => PipelineView {
            bindings: StateBlockView { vertex_shader: h, ..s.bindings },
            ..s
        },
        CommandView::SetPixelShader(h) => PipelineView {
            bindings: StateBlockView { pixel_shader: h, ..s.bindings },
            ..s
        },
        CommandView::SetRasterizerState(h) => PipelineView {
            bindings: StateBlockView { rasterizer_state: h, ..s.bindings },
            ..s
        },
        CommandView::SetViewports(v) => PipelineView {
            bindings: StateBlockView { viewports: v, ..s.bindings },
            ..s
        },
        CommandView::SetSamplers { start, samplers } => PipelineView {
            bindings: StateBlockView {
                sampler_states: samplers_set(s.bindings.sampler_states, start as int, samplers),
                ..s.bindings
            },
            ..s
        },
        CommandView::SetRenderTargets { targets, depth_stencil } => PipelineView {
            bindings: StateBlockView {
                render_targets: targets_set(s.bindings.render_targets, targets),
                depth_stencil_view: depth_stencil,
                ..s.bindings
            },
            ..s
        },
        CommandView::SetBlendState { state, factor, sample_mask } => PipelineView {
            bindings: StateBlockView {
                blend_state: state,
                blend_factor: factor,
                sample_mask,
                ..s.bindings
            },
            ..s
        },
        CommandView::SetDepthStencilState { state, stencil_ref } => PipelineView {
            bindings: StateBlockView { depth_stencil_state: state, stencil_ref, ..s.bindings },
            ..s
        },
        CommandView::CreateIndexBuffer { .. } => s,
        CommandView::CreateVertexBuffer { .. } => s,
        CommandView::SetVertexBuffer { primitive, .. } => PipelineView {
            vertex_buffer: Some(primitive),
            ..s
        },
        CommandView::SetIndexBuffer { primitive, .. } => PipelineView {
            index_buffer: Some(primitive),
            ..s
        },
        CommandView::SetScissorRect { primitive } => PipelineView { scissor: Some(primitive), ..s },
        CommandView::SetShaderResource { texture } => PipelineView {
            shader_resource: Some(texture),
            ..s
        },
        CommandView::DrawIndexed { .. } => s,
    }
}

/// The pipeline after a list of calls, first to last.
pub open spec fn run(s: PipelineView, commands: Seq<CommandView>) -> PipelineView
    decreases commands.len(),
{
    if commands.len() == 0 {
        s
    } else {
        step(run(s, commands.drop_last()), commands.last())
    }
}

/// One more call at the end is one more step.
pub proof fn lemma_run_push(s: PipelineView, commands: Seq<CommandView>, c: CommandView)
    ensures
        run(s, commands.push(c)) == step(run(s, commands), c),
{
    assert(commands.push(c).drop_last() =~= commands);
}

/// Running two lists one after the other is running their concatenation.
pub proof fn lemma_run_append(s: PipelineView, first: Seq<CommandView>, then: Seq<CommandView>)
    ensures
        run(s, first + then) == run(run(s, first), then),
    decreases then.len(),
{
    if then.len() == 0 {
        assert(first + then =~= first);
    } else {
        lemma_run_append(s, first, then.drop_last());
        assert((first + then).drop_last() =~= first + then.drop_last());
        assert((first + then).last() == then.last());
    }
}

impl Pipeline {
    /// A pipeline with nothing bound: every sampler slot and every
    /// render-target slot empty, no viewport.
    pub fn unbound() -> (p: Pipeline)
        ensures
            p@.bindings.wf(),
            p@.bindings.viewports.len() == 0,
            forall|i: int| 0 <= i < SAMPLER_SLOTS ==> p@.bindings.sampler_states[i] is None,
            forall|i: int| 0 <= i < RENDER_TARGET_SLOTS ==> p@.bindings.render_targets[i] is None,
            p@.bindings.input_layout is None,
            p@.bindings.vertex_shader is None,
            p@.bindings.pixel_shader is None,
            p@.bindings.rasterizer_state is None,
            p@.bindings.depth_stencil_view is None,
            p@.bindings.blend_state is None,
            p@.bindings.depth_stencil_state is None,
            p@.vertex_buffer is None,
            p@.index_buffer is None,
            p@.scissor is None,
            p@.shader_resource is None,
    {
        let mut sampler_states: Vec<Slot> = Vec::new();
        while sampler_states.len() < SAMPLER_SLOTS
            invariant
                sampler_states@.len() <= SAMPLER_SLOTS,
                forall|i: int| 0 <= i < sampler_states@.len() ==> sampler_states@[i] is None,
            decreases SAMPLER_SLOTS - sampler_states@.len(),
        {
            sampler_states.push(None);
        }
        let mut render_targets: Vec<Slot> = Vec::new();
        while render_targets.len() < RENDER_TARGET_SLOTS
            invariant
                render_targets@.len() <= RENDER_TARGET_SLOTS,
                forall|i: int| 0 <= i < render_targets@.len() ==> render_targets@[i] is None,
            decreases RENDER_TARGET_SLOTS - render_targets@.len(),
        {
            render_targets.push(None);
        }
        Pipeline {
            bindings: StateBlock {
                primitive_topology: 0,
                input_layout: None,
                vertex_shader: None,
                pixel_shader: None,
                rasterizer_state: None,
                viewports: Vec::new(),
                sampler_states,
                render_targets,
                depth_stencil_view: None,
                blend_state: None,
                blend_factor: [0u32, 0u32, 0u32, 0u32],
                sample_mask: 0,
                depth_stencil_state: None,
                stencil_ref: 0,
            },
            vertex_buffer: None,
            index_buffer: None,
            scissor: None,
            shader_resource: None,
        }
    }

    /// Makes one call on this pipeline.
    pub fn execute(&mut self, c: &Command)
        ensures
            final(self)@ == step(old(self)@, c@),
    {
        match c {
            Command::SetPrimitiveTopology(t) => {
                self.bindings.primitive_topology = *t;
            },
            Command::SetInputLayout(h) => {
                self.bindings.input_layout = *h;
            },
            Command::SetVertexShader(h) => {
                self.bindings.vertex_shader = *h;
            },
            Command::SetPixelShader(h) => {
                self.bindings.pixel_shader = *h;
            },
            Command::SetRasterizerState(h) => {
                self.bindings.rasterizer_state = *h;
            },
            Command::SetViewports(v) => {
                self.bindings.viewports = copied(v);
            },
            Command::SetSamplers { start, samplers } => {
                let ghost before = self.bindings.sampler_states@;
                let mut i: usize = 0;
                while i < samplers.len() && i < self.bindings.sampler_states.len() && *start
                    < self.bindings.sampler_states.len() - i
                    invariant
                        self.bindings.sampler_states@.len() == before.len(),
                        before == old(self).bindings.sampler_states@,
                        forall|j: int|
                            0 <= j < before.len() ==> self.bindings.sampler_states@[j] == (if *start
                                <= j < *start + i && j < *start + samplers@.len() {
                                samplers@[j - *start]
                            } else {
                                before[j]
                            }),
                        self@ == (PipelineView {
                            bindings: StateBlockView {
                                sampler_states: self.bindings.sampler_states@,
                                ..old(self)@.bindings
                            },
                            ..old(self)@
                        }),
                    decreases samplers@.len() - i,
                {
                    self.bindings.sampler_states.set(*start + i, samplers[i]);
                    i += 1;
                }
                assert(self.bindings.sampler_states@ =~= samplers_set(
                    before,
                    *start as int,
                    samplers@,
                ));
            },
            Command::SetRenderTargets { targets, depth_stencil } => {
                let ghost before = self.bindings.render_targets@;
                let mut i: usize = 0;
                while i < self.bindings.render_targets.len()
                    invariant
                        i <= before.len(),
                        self.bindings.render_targets@.len() == before.len(),
                        forall|j: int|
                            0 <= j < i ==> self.bindings.render_targets@[j] == targets_set(
                                before,
                                targets@,
                            )[j],
                        self@ == (PipelineView {
                            bindings: StateBlockView {
                                render_targets: self.bindings.render_targets@,
                                ..old(self)@.bindings
                            },
                            ..old(self)@
                        }),
                    decreases before.len() - i,
                {
                    let slot: Slot = if i < targets.len() {
                        targets[i]
                    } else {
                        None
                    };
                    self.bindings.render_targets.set(i, slot);
                    i += 1;
                }
                self.bindings.depth_stencil_view = *depth_stencil;
                assert(self.bindings.render_targets@ =~= targets_set(before, targets@));
            },
            Command::SetBlendState { state, factor, sample_mask } => {
                self.bindings.blend_state = *state;
                self.bindings.blend_factor = *factor;
                self.bindings.sample_mask = *sample_mask;
            },
            Command::SetDepthStencilState { state, stencil_ref } => {
                self.bindings.depth_stencil_state = *state;
                self.bindings.stencil_ref = *stencil_ref;
            },
            Command::CreateIndexBuffer { .. } => {},
            Command::CreateVertexBuffer { .. } => {},
            Command::SetVertexBuffer { primitive, .. } => {
                self.vertex_buffer = Some(*primitive);
            },
            Command::SetIndexBuffer { primitive, .. } => {
                self.index_buffer = Some(*primitive);
            },
            Command::SetScissorRect { primitive } => {
                self.scissor = Some(*primitive);
            },
            Command::SetShaderResource { texture } => {
                self.shader_resource = Some(*texture);
            },
            Command::DrawIndexed { .. } => {},
        }
    }

    /// Makes a list of calls on this pipeline, first to last.
    pub fn execute_all(&mut self, commands: &Vec<Command>)
        ensures
            final(self)@ == run(old(self)@, views(commands@)),
    {
        let mut i: usize = 0;
        assert(views(commands@.take(0)) =~= Seq::<CommandView>::empty());
        while i < commands.len()
            invariant
                i <= commands@.len(),
                self@ == run(old(self)@, views(commands@.take(i as int))),
            decreases commands@.len() - i,
        {
            proof {
                assert(views(commands@.take(i + 1)) =~= views(commands@.take(i as int)).push(
                    commands@[i as int]@,
                ));
                lemma_run_push(
                    old(self)@,
                    views(commands@.take(i as int)),
                    commands@[i as int]@,
                );
            }
            self.execute(&commands[i]);
            i += 1;
        }
        assert(commands@.take(i as int) =~= commands@);
    }
}

/// No call changes how many sampler slots or render-target slots there are.
pub proof fn lemma_run_keeps_slots(s: PipelineView, commands: Seq<CommandView>)
    ensures
        run(s, commands).bindings.sampler_states.len() == s.bindings.sampler_states.len(),
        run(s, commands).bindings.render_targets.len() == s.bindings.render_targets.len(),
    decreases commands.len(),
{
    if commands.len() > 0 {
        lemma_run_keeps_slots(s, commands.drop_last());
    }
}

/// Writing a state block back leaves the pipeline with exactly the bindings
/// the block holds, and touches nothing else.
pub proof fn lemma_restore_onto(t: PipelineView, block: StateBlockView)
    requires
        block.sampler_states.len() == t.bindings.sampler_states.len(),
        block.render_targets.len() == t.bindings.render_targets.len(),
    ensures
        run(t, block.restore()) == (PipelineView { bindings: block, ..t }),
{
    let c = block.restore();
    let e = Seq::<CommandView>::empty();
    assert(c =~= e.push(c[0]).push(c[1]).push(c[2]).push(c[3]).push(c[4]).push(c[5]).push(
        c[6],
    ).push(c[7]).push(c[8]).push(c[9]));
    let p0 = e;
    let p1 = p0.push(c[0]);
    let p2 = p1.push(c[1]);
    let p3 = p2.push(c[2]);
    let p4 = p3.push(c[3]);
    let p5 = p4.push(c[4]);
    let p6 = p5.push(c[5]);
    let p7 = p6.push(c[6]);
    let p8 = p7.push(c[7]);
    let p9 = p8.push(c[8]);
    lemma_run_push(t, p0, c[0]);
    lemma_run_push(t, p1, c[1]);
    lemma_run_push(t, p2, c[2]);
    lemma_run_push(t, p3, c[3]);
    lemma_run_push(t, p4, c[4]);
    lemma_run_push(t, p5, c[5]);
    lemma_run_push(t, p6, c[6]);
    lemma_run_push(t, p7, c[7]);
    lemma_run_push(t, p8, c[8]);
    lemma_run_push(t, p9, c[9]);
    let after = run(t, c);
    assert(after.bindings.sampler_states =~= block.sampler_states);
    assert(after.bindings.render_targets =~= block.render_targets);
}

/// A state block that was captured before any call restores, when it is
/// written back after them, every binding it covers: topology, input layout,
/// shaders, rasterizer state, viewports, samplers, render targets,
/// depth-stencil view, blend state with factor and mask, depth-stencil state
/// with its reference.
pub proof fn lemma_restore_undoes(s: PipelineView, between: Seq<CommandView>)
    ensures
        run(s, between + s.bindings.restore()).bindings == s.bindings,
{
    lemma_run_append(s, between, s.bindings.restore());
    lemma_run_keeps_slots(s, between);
    lemma_restore_onto(run(s, between), s.bindings);
}

} // verus!

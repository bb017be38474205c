//! The renderer: what one frame asks of the device, call by call.
//!
//! `Renderer::render` applies the frame's texture changes and returns the
//! calls that draw the frame. It makes none of them itself.

use vstd::prelude::*;
use crate::bootstrap::{object_desc, pipeline_objects, ObjectDesc, PipelineObjects};
use crate::command::{
    emit, views, BufferDesc, BufferKind, Command, CommandView, Handle, Viewport,
    FLOAT_ONE, FLOAT_ZERO, INDEX_STRIDE, TRIANGLE_LIST, VERTEX_STRIDE,
};
use crate::image::{Pixel, TextureId, TexturesDelta};
use crate::pipeline::{lemma_restore_undoes, run, Pipeline, PipelineView};
use crate::state_block::StateBlock;
use crate::texture::{
    updated, Format, TextureDesc, TexturePool, TextureView, UpdateError, Upload, Usage,
};

verus! {

/// The stencil reference the renderer draws with.
pub const STENCIL_REF: u32 = 2;

/// A triangle mesh as far as the renderer decides on it: how many vertices
/// and indices it has and which texture it samples.
#[derive(Clone, Copy, PartialEq, Eq, Structural, Debug)]
pub struct Mesh {
    pub vertices: u32,
    pub indices: u32,
    pub texture_id: TextureId,
}

/// One tessellated primitive of a frame.
#[derive(Clone, Copy, PartialEq, Eq, Structural, Debug)]
pub enum Primitive {
    Mesh(Mesh),
    /// A paint callback. These are not supported and draw nothing.
    Callback,
}

/// What a frame of the GUI layer hands to the renderer.
#[derive(Clone, PartialEq, Eq, Debug)]
pub struct RendererOutput {
    pub textures_delta: TexturesDelta,
    /// How many shapes the frame holds.
    pub shapes: usize,
    /// The frame's shapes, tessellated, in the order in which they are to be
    /// painted.
    pub primitives: Vec<Primitive>,
}

/// The fixed objects of a pipeline and the pool of textures drawn with them.
pub struct Renderer<R> {
    objects: PipelineObjects,
    texture_pool: TexturePool<R>,
    restore_state_after_render: bool,
}

/// The calls that bind the renderer's own objects for a target of
/// `frame_size` physical pixels: triangle lists, the input layout, the two
/// shaders, the rasterizer state, one viewport over the whole target, the
/// sampler in slot 0, the render target with the depth-stencil view, the
/// blend state with a zero factor and a full mask, the depth-stencil state.
pub open spec fn setup_commands(
    objects: PipelineObjects,
    render_target: Handle,
    depth_stencil_target: Handle,
    frame_size: (u32, u32),
) -> Seq<CommandView> {
    seq![
        CommandView::SetPrimitiveTopology(TRIANGLE_LIST),
        CommandView::SetInputLayout(Some(objects.input_layout)),
        CommandView::SetVertexShader(Some(objects.vertex_shader)),
        CommandView::SetPixelShader(Some(objects.pixel_shader)),
        CommandView::SetRasterizerState(Some(objects.rasterizer_state)),
        CommandView::SetViewports(
            seq![
                Viewport {
                    top_left_x: 0,
                    top_left_y: 0,
                    width: frame_size.0,
                    height: frame_size.1,
                    min_depth: FLOAT_ZERO,
                    max_depth: FLOAT_ONE,
                },
            ],
        ),
        CommandView::SetSamplers { start: 0, samplers: seq![Some(objects.sampler_state)] },
        CommandView::SetRenderTargets {
            targets: seq![Some(render_target)],
            depth_stencil: Some(depth_stencil_target),
        },
        CommandView::SetBlendState {
            state: Some(objects.blend_state),
            factor: [0u32, 0u32, 0u32, 0u32],
            sample_mask: 0xffff_ffff,
        },
        CommandView::SetDepthStencilState {
            state: Some(objects.depth_stencil_state),
            stencil_ref: STENCIL_REF,
        },
    ]
}

/// An immutable buffer that holds exactly `vertices` vertices.
pub open spec fn vertex_buffer_desc(vertices: u32) -> BufferDesc {
    BufferDesc {
        byte_width: (vertices * VERTEX_STRIDE) as u64,
        usage: Usage::Immutable,
        kind: BufferKind::Vertex,
    }
}

/// An immutable buffer that holds exactly `indices` indices.
pub open spec fn index_buffer_desc(indices: u32) -> BufferDesc {
    BufferDesc {
        byte_width: (indices * INDEX_STRIDE) as u64,
        usage: Usage::Immutable,
        kind: BufferKind::Index,
    }
}

/// The calls that draw one mesh, the primitive at position `primitive`: both
/// buffers are made and bound, the scissor rectangle is set, the texture is
/// bound if a texture is live under the mesh's identifier, and all indices
/// are drawn. Without a live texture the bind is left out and the draw
/// still takes place.
pub open spec fn mesh_commands(resolved: bool, primitive: usize, mesh: Mesh) -> Seq<CommandView> {
    seq![
        CommandView::CreateIndexBuffer { primitive, desc: index_buffer_desc(mesh.indices) },
        CommandView::CreateVertexBuffer { primitive, desc: vertex_buffer_desc(mesh.vertices) },
        CommandView::SetVertexBuffer { primitive, stride: VERTEX_STRIDE, offset: 0 },
        CommandView::SetIndexBuffer { primitive, format: Format::R32Uint, offset: 0 },
        CommandView::SetScissorRect { primitive },
    ] + (if resolved {
        seq![CommandView::SetShaderResource { texture: mesh.texture_id }]
    } else {
        Seq::<CommandView>::empty()
    }) + seq![
        CommandView::DrawIndexed { index_count: mesh.indices, start_index: 0, base_vertex: 0 },
    ]
}

/// A mesh is drawn if it has indices and they make whole triangles.
pub open spec fn drawable(mesh: Mesh) -> bool {
    mesh.indices != 0 && mesh.indices % 3 == 0
}

impl Mesh {
    /// Whether the mesh is drawn.
    pub fn is_drawable(&self) -> (yes: bool)
        ensures
            yes == drawable(*self),
    {
        self.indices != 0 && self.indices % 3 == 0
    }
}

/// The calls for the primitive at position `k`: those of its mesh if it is
/// a drawable mesh, else none.
pub open spec fn primitive_commands(
    textures: Map<TextureId, TextureView>,
    k: int,
    p: Primitive,
) -> Seq<CommandView> {
    match p {
        Primitive::Mesh(mesh) => if drawable(mesh) {
            mesh_commands(textures.contains_key(mesh.texture_id), k as usize, mesh)
        } else {
            Seq::<CommandView>::empty()
        },
        Primitive::Callback => Seq::<CommandView>::empty(),
    }
}

/// The calls for the first `k` primitives, in their order.
pub open spec fn draw_commands(
    textures: Map<TextureId, TextureView>,
    primitives: Seq<Primitive>,
    k: int,
) -> Seq<CommandView>
    decreases k,
{
    if k <= 0 {
        Seq::<CommandView>::empty()
    } else {
        draw_commands(textures, primitives, k - 1) + primitive_commands(
            textures,
            k - 1,
            primitives[k - 1],
        )
    }
}

/// The calls of one frame. A frame without shapes asks for none. Any other
/// binds the renderer's objects, draws every primitive in order and, if
/// `restore` is set, writes back the bindings that `device` held.
pub open spec fn frame_commands(
    objects: PipelineObjects,
    restore: bool,
    device: PipelineView,
    textures: Map<TextureId, TextureView>,
    render_target: Handle,
    depth_stencil_target: Handle,
    frame_size: (u32, u32),
    shapes: usize,
    primitives: Seq<Primitive>,
) -> Seq<CommandView> {
    if shapes == 0 {
        Seq::<CommandView>::empty()
    } else {
        setup_commands(objects, render_target, depth_stencil_target, frame_size) + draw_commands(
            textures,
            primitives,
            primitives.len() as int,
        ) + (if restore {
            device.bindings.restore()
        } else {
            Seq::<CommandView>::empty()
        })
    }
}

/// The device made the object that `desc` describes when `create` asked it.
pub open spec fn makes<E, C: Fn(&ObjectDesc) -> Result<Handle, E>>(
    create: C,
    desc: ObjectDesc,
) -> bool {
    exists|h: Handle| call_ensures(create, (&desc,), Ok::<Handle, E>(h))
}

impl<R> Renderer<R> {
    /// The renderer's fixed objects.
    pub closed spec fn objects(&self) -> PipelineObjects {
        self.objects
    }

    /// What the texture pool caches.
    pub closed spec fn textures(&self) -> Map<TextureId, TextureView> {
        self.texture_pool@
    }

    /// The resources the texture pool holds.
    pub closed spec fn resources(&self) -> Map<TextureId, R> {
        self.texture_pool.resources()
    }

    /// Whether each render call ends by restoring the bindings it found.
    pub closed spec fn restores_state(&self) -> bool {
        self.restore_state_after_render
    }

    /// The texture pool is sound.
    pub closed spec fn wf(&self) -> bool {
        self.texture_pool.wf()
    }

    /// Has `create` make the seven objects of a pipeline, in the order of
    /// `pipeline_objects`, and builds a renderer around them. The pixel
    /// shader is the one for `gamma_output`. The first object that the
    /// device fails to make ends the call with the device's error; the
    /// objects before it were made, none after it is asked for.
    pub fn new<E, C: Fn(&ObjectDesc) -> Result<Handle, E>>(
        create: &C,
        gamma_output: bool,
        restore_state_after_render: bool,
    ) -> (r: Result<Self, E>)
        requires
            forall|d: &ObjectDesc| call_requires(*create, (d,)),
        ensures
            match r {
                Ok(renderer) => {
                    &&& renderer.wf()
                    &&& renderer.textures() == Map::<TextureId, TextureView>::empty()
                    &&& renderer.resources() == Map::<TextureId, R>::empty()
                    &&& renderer.restores_state() == restore_state_after_render
                    &&& forall|k: int|
                        0 <= k < 7 ==> call_ensures(
                            *create,
                            (&#[trigger] pipeline_objects(gamma_output)[k],),
                            Ok::<Handle, E>(renderer.objects().in_order()[k]),
                        )
                },
                Err(e) => exists|k: int|
                    {
                        &&& 0 <= k < 7
                        &&& call_ensures(
                            *create,
                            (&#[trigger] pipeline_objects(gamma_output)[k],),
                            Err::<Handle, E>(e),
                        )
                        &&& forall|j: int|
                            0 <= j < k ==> #[trigger] makes::<E, C>(
                                *create,
                                pipeline_objects(gamma_output)[j],
                            )
                    },
            },
    {
        let mut made: Vec<Handle> = Vec::new();
        let mut k: usize = 0;
        while k < 7
            invariant
                k <= 7,
                made@.len() == k,
                forall|d: &ObjectDesc| call_requires(*create, (d,)),
                forall|j: int|
                    0 <= j < k ==> call_ensures(
                        *create,
                        (&#[trigger] pipeline_objects(gamma_output)[j],),
                        Ok::<Handle, E>(made@[j]),
                    ),
            decreases 7 - k,
        {
            let desc = object_desc(gamma_output, k);
            match create(&desc) {
                Ok(h) => {
                    made.push(h);
                },
                Err(e) => {
                    assert(call_ensures(
                        *create,
                        (&pipeline_objects(gamma_output)[k as int],),
                        Err::<Handle, E>(e),
                    ));
                    assert forall|j: int| 0 <= j < k implies #[trigger] makes::<E, C>(
                        *create,
                        pipeline_objects(gamma_output)[j],
                    ) by {
                        assert(call_ensures(
                            *create,
                            (&pipeline_objects(gamma_output)[j],),
                            Ok::<Handle, E>(made@[j]),
                        ));
                    }
                    return Err(e);
                },
            }
            k += 1;
        }
        let objects = PipelineObjects {
            input_layout: made[0],
            vertex_shader: made[1],
            pixel_shader: made[2],
            rasterizer_state: made[3],
            depth_stencil_state: made[4],
            sampler_state: made[5],
            blend_state: made[6],
        };
        assert(objects.in_order() =~= made@);
        Ok(Renderer { objects, texture_pool: TexturePool::new(), restore_state_after_render })
    }

    /// Whether each render call ends by restoring the bindings it found.
    pub fn restore_state_after_render(&self) -> (on: bool)
        ensures
            on == self.restores_state(),
    {
        self.restore_state_after_render
    }

    /// The renderer's fixed objects.
    pub fn pipeline_objects(&self) -> (objects: PipelineObjects)
        ensures
            objects == self.objects(),
    {
        self.objects
    }

    /// The texture pool.
    pub fn texture_pool(&self) -> (pool: &TexturePool<R>)
        ensures
            pool@ == self.textures(),
            pool.resources() == self.resources(),
            pool.wf() == self.wf(),
    {
        &self.texture_pool
    }

    /// The resource to bind for `tid`, if a texture is live under it.
    pub fn resolve(&self, tid: TextureId) -> (srv: Option<&R>)
        ensures
            match srv {
                Some(r) => self.textures().contains_key(tid) && *r == self.resources()[tid],
                None => !self.textures().contains_key(tid),
            },
    {
        self.texture_pool.get_srv(tid)
    }

    /// Renders one frame: applies the frame's texture changes to the pool
    /// and returns the calls that draw it onto `render_target`, which is
    /// `frame_size` physical pixels large. `device` holds the bindings of the
    /// pipeline as they stand; `create` and `upload` are the device's ways
    /// to make a texture and to write to one.
    ///
    /// A failed texture change ends the call with its error and without a
    /// single call to make. A frame without shapes asks for no call at all.
    /// A target whose size could not be read ends the call with the error
    /// of that reading, after the textures were changed.
    pub fn render<E, C, U>(
        &mut self,
        device: &Pipeline,
        render_target: Handle,
        depth_stencil_target: Handle,
        frame_size: Result<(u32, u32), E>,
        output: RendererOutput,
        create: &C,
        upload: &U,
    ) -> (r: Result<Vec<Command>, UpdateError<E>>) where
        C: Fn(&TextureDesc, &Vec<Pixel>) -> Result<R, E>,
        U: Fn(R, &Upload) -> R,

        requires
            old(self).wf(),
            forall|d: &TextureDesc, px: &Vec<Pixel>| call_requires(*create, (d, px)),
            forall|res: R, up: &Upload| call_requires(*upload, (res, up)),
        ensures
            final(self).wf(),
            final(self).objects() == old(self).objects(),
            final(self).restores_state() == old(self).restores_state(),
            match r {
                Ok(commands) => {
                    &&& updated(
                        *create,
                        *upload,
                        old(self).textures(),
                        old(self).resources(),
                        output.textures_delta.set@,
                        output.textures_delta.free@,
                        final(self).textures(),
                        final(self).resources(),
                        Ok::<(), UpdateError<E>>(()),
                    )
                    &&& output.shapes == 0 || frame_size is Ok
                    &&& views(commands@) == frame_commands(
                        old(self).objects(),
                        old(self).restores_state(),
                        device@,
                        final(self).textures(),
                        render_target,
                        depth_stencil_target,
                        frame_size->Ok_0,
                        output.shapes,
                        output.primitives@,
                    )
                },
                Err(e) => {
                    ||| updated(
                        *create,
                        *upload,
                        old(self).textures(),
                        old(self).resources(),
                        output.textures_delta.set@,
                        output.textures_delta.free@,
                        final(self).textures(),
                        final(self).resources(),
                        Err::<(), UpdateError<E>>(e),
                    )
                    ||| {
                        &&& updated(
                            *create,
                            *upload,
                            old(self).textures(),
                            old(self).resources(),
                            output.textures_delta.set@,
                            output.textures_delta.free@,
                            final(self).textures(),
                            final(self).resources(),
                            Ok::<(), UpdateError<E>>(()),
                        )
                        &&& output.shapes != 0
                        &&& frame_size is Err
                        &&& e == UpdateError::Device(frame_size->Err_0)
                    }
                },
            },
    {
        let RendererOutput { textures_delta, shapes, primitives } = output;
        match self.texture_pool.update(textures_delta, create, upload) {
            Ok(()) => {},
            Err(e) => {
                return Err(e);
            },
        }
        let mut out: Vec<Command> = Vec::new();
        assert(views(out@) =~= Seq::<CommandView>::empty());
        if shapes == 0 {
            return Ok(out);
        }
        let size = match frame_size {
            Ok(size) => size,
            Err(e) => {
                return Err(UpdateError::Device(e));
            },
        };
        let state_block = if self.restore_state_after_render {
            Some(StateBlock::new(device))
        } else {
            None
        };
        self.setup(render_target, depth_stencil_target, size, &mut out);
        let ghost bound = views(out@);
        assert(bound =~= setup_commands(
            self.objects(),
            render_target,
            depth_stencil_target,
            size,
        ));
        let mut k: usize = 0;
        while k < primitives.len()
            invariant
                k <= primitives@.len(),
                views(out@) == bound + draw_commands(self.textures(), primitives@, k as int),
            decreases primitives@.len() - k,
        {
            let ghost so_far = draw_commands(self.textures(), primitives@, k as int);
            let ghost more = primitive_commands(self.textures(), k as int, primitives@[k as int]);
            match &primitives[k] {
                Primitive::Mesh(mesh) => {
                    if mesh.is_drawable() {
                        Self::draw_mesh(&self.texture_pool, k, mesh, &mut out);
                    }
                },
                Primitive::Callback => {},
            }
            assert(views(out@) =~= bound + (so_far + more));
            k += 1;
        }
        match state_block {
            Some(block) => {
                block.apply(&mut out);
            },
            None => {
                assert(views(out@) =~= views(out@) + Seq::<CommandView>::empty());
            },
        }
        Ok(out)
    }

    /// Adds to `out` the calls that bind the renderer's own objects.
    fn setup(
        &self,
        render_target: Handle,
        depth_stencil_target: Handle,
        frame_size: (u32, u32),
        out: &mut Vec<Command>,
    )
        ensures
            views(final(out)@) == views(old(out)@) + setup_commands(
                self.objects(),
                render_target,
                depth_stencil_target,
                frame_size,
            ),
    {
        let ghost start = views(out@);
        emit(out, Command::SetPrimitiveTopology(TRIANGLE_LIST));
        emit(out, Command::SetInputLayout(Some(self.objects.input_layout)));
        emit(out, Command::SetVertexShader(Some(self.objects.vertex_shader)));
        emit(out, Command::SetPixelShader(Some(self.objects.pixel_shader)));
        emit(out, Command::SetRasterizerState(Some(self.objects.rasterizer_state)));
        let mut viewports: Vec<Viewport> = Vec::new();
        viewports.push(
            Viewport {
                top_left_x: 0,
                top_left_y: 0,
                width: frame_size.0,
                height: frame_size.1,
                min_depth: FLOAT_ZERO,
                max_depth: FLOAT_ONE,
            },
        );
        emit(out, Command::SetViewports(viewports));
        let mut samplers: Vec<Option<Handle>> = Vec::new();
        samplers.push(Some(self.objects.sampler_state));
        emit(out, Command::SetSamplers { start: 0, samplers });
        let mut targets: Vec<Option<Handle>> = Vec::new();
        targets.push(Some(render_target));
        emit(out, Command::SetRenderTargets { targets, depth_stencil: Some(depth_stencil_target) });
        emit(
            out,
            Command::SetBlendState {
                state: Some(self.objects.blend_state),
                factor: [0u32, 0u32, 0u32, 0u32],
                sample_mask: 0xffff_ffff,
            },
        );
        emit(
            out,
            Command::SetDepthStencilState {
                state: Some(self.objects.depth_stencil_state),
                stencil_ref: STENCIL_REF,
            },
        );
        proof {
            let want = setup_commands(
                self.objects(),
                render_target,
                depth_stencil_target,
                frame_size,
            );
            let got = views(out@);
            let n = start.len() as int;
            assert(got.len() == n + 10);
            assert(got[n + 5] == want[5]) by {
                assert(viewports@ =~= seq![viewports@[0]]);
            }
            assert(got[n + 6] == want[6]) by {
                assert(samplers@ =~= seq![Some(self.objects.sampler_state)]);
            }
            assert(got[n + 7] == want[7]) by {
                assert(targets@ =~= seq![Some(render_target)]);
            }
            assert(got =~= start + want);
        }
    }

    /// The descriptor of the vertex buffer for a mesh of `vertices`
    /// vertices.
    fn create_vertex_buffer(vertices: u32) -> (desc: BufferDesc)
        ensures
            desc == vertex_buffer_desc(vertices),
    {
        BufferDesc {
            byte_width: vertices as u64 * VERTEX_STRIDE as u64,
            usage: Usage::Immutable,
            kind: BufferKind::Vertex,
        }
    }

    /// The descriptor of the index buffer for a mesh of `indices` indices.
    fn create_index_buffer(indices: u32) -> (desc: BufferDesc)
        ensures
            desc == index_buffer_desc(indices),
    {
        BufferDesc {
            byte_width: indices as u64 * INDEX_STRIDE as u64,
            usage: Usage::Immutable,
            kind: BufferKind::Index,
        }
    }

    /// Adds to `out` the calls that draw `mesh`, the primitive at position
    /// `primitive`.
    fn draw_mesh(
        texture_pool: &TexturePool<R>,
        primitive: usize,
        mesh: &Mesh,
        out: &mut Vec<Command>,
    )
        ensures
            views(final(out)@) == views(old(out)@) + mesh_commands(
                texture_pool@.contains_key(mesh.texture_id),
                primitive,
                *mesh,
            ),
    {
        let ghost start = views(out@);
        emit(
            out,
            Command::CreateIndexBuffer { primitive, desc: Self::create_index_buffer(mesh.indices) },
        );
        emit(
            out,
            Command::CreateVertexBuffer {
                primitive,
                desc: Self::create_vertex_buffer(mesh.vertices),
            },
        );
        emit(out, Command::SetVertexBuffer { primitive, stride: VERTEX_STRIDE, offset: 0 });
        emit(out, Command::SetIndexBuffer { primitive, format: Format::R32Uint, offset: 0 });
        emit(out, Command::SetScissorRect { primitive });
        if texture_pool.get_srv(mesh.texture_id).is_some() {
            emit(out, Command::SetShaderResource { texture: mesh.texture_id });
        }
        emit(
            out,
            Command::DrawIndexed { index_count: mesh.indices, start_index: 0, base_vertex: 0 },
        );
        assert(views(out@) =~= start + mesh_commands(
            texture_pool@.contains_key(mesh.texture_id),
            primitive,
            *mesh,
        ));
    }
}

/// How many of `commands` are draws.
pub open spec fn draw_calls(commands: Seq<CommandView>) -> nat
    decreases commands.len(),
{
    if commands.len() == 0 {
        0
    } else {
        draw_calls(commands.drop_last()) + (if commands.last() is DrawIndexed {
            1nat
        } else {
            0nat
        })
    }
}

/// How many of the first `k` primitives are drawable meshes.
pub open spec fn drawable_meshes(primitives: Seq<Primitive>, k: int) -> nat
    decreases k,
{
    if k <= 0 {
        0
    } else {
        drawable_meshes(primitives, k - 1) + (match primitives[k - 1] {
            Primitive::Mesh(mesh) => if drawable(mesh) {
                1nat
            } else {
                0nat
            },
            Primitive::Callback => 0nat,
        })
    }
}

proof fn lemma_draw_calls_append(first: Seq<CommandView>, then: Seq<CommandView>)
    ensures
        draw_calls(first + then) == draw_calls(first) + draw_calls(then),
    decreases then.len(),
{
    if then.len() == 0 {
        assert(first + then =~= first);
    } else {
        lemma_draw_calls_append(first, then.drop_last());
        assert((first + then).drop_last() =~= first + then.drop_last());
        assert((first + then).last() == then.last());
    }
}

proof fn lemma_draw_calls_none(commands: Seq<CommandView>)
    requires
        forall|i: int| 0 <= i < commands.len() ==> !(commands[i] is DrawIndexed),
    ensures
        draw_calls(commands) == 0,
    decreases commands.len(),
{
    if commands.len() > 0 {
        lemma_draw_calls_none(commands.drop_last());
    }
}

proof fn lemma_draw_calls_of_draws(
    textures: Map<TextureId, TextureView>,
    primitives: Seq<Primitive>,
    k: int,
)
    requires
        0 <= k <= primitives.len(),
    ensures
        draw_calls(draw_commands(textures, primitives, k)) == drawable_meshes(primitives, k),
    decreases k,
{
    if k > 0 {
        lemma_draw_calls_of_draws(textures, primitives, k - 1);
        let one = primitive_commands(textures, k - 1, primitives[k - 1]);
        lemma_draw_calls_append(draw_commands(textures, primitives, k - 1), one);
        match primitives[k - 1] {
            Primitive::Mesh(mesh) => {
                if drawable(mesh) {
                    let resolved = textures.contains_key(mesh.texture_id);
                    let head = one.take(one.len() - 1);
                    let tail = one.skip(one.len() - 1);
                    assert(one =~= head + tail);
                    lemma_draw_calls_append(head, tail);
                    lemma_draw_calls_none(head);
                    assert(tail.drop_last() =~= Seq::<CommandView>::empty());
                    assert(draw_calls(tail) == 1);
                }
            },
            Primitive::Callback => {},
        }
    }
}

/// A mesh whose indices do not make whole triangles asks for no call, and
/// so for no draw.
pub proof fn lemma_incomplete_mesh_not_drawn(
    textures: Map<TextureId, TextureView>,
    k: int,
    mesh: Mesh,
)
    requires
        mesh.indices % 3 != 0,
    ensures
        primitive_commands(textures, k, Primitive::Mesh(mesh)) == Seq::<CommandView>::empty(),
{
}

/// A frame draws once for each drawable mesh and not once more: meshes
/// without indices, meshes whose indices do not make whole triangles, and
/// paint callbacks are never drawn.
pub proof fn lemma_frame_draws(
    objects: PipelineObjects,
    restore: bool,
    device: PipelineView,
    textures: Map<TextureId, TextureView>,
    render_target: Handle,
    depth_stencil_target: Handle,
    frame_size: (u32, u32),
    shapes: usize,
    primitives: Seq<Primitive>,
)
    ensures
        draw_calls(
            frame_commands(
                objects,
                restore,
                device,
                textures,
                render_target,
                depth_stencil_target,
                frame_size,
                shapes,
                primitives,
            ),
        ) == (if shapes == 0 {
            0
        } else {
            drawable_meshes(primitives, primitives.len() as int)
        }),
{
    if shapes != 0 {
        let bind = setup_commands(objects, render_target, depth_stencil_target, frame_size);
        let draws = draw_commands(textures, primitives, primitives.len() as int);
        let back = if restore {
            device.bindings.restore()
        } else {
            Seq::<CommandView>::empty()
        };
        lemma_draw_calls_append(bind + draws, back);
        lemma_draw_calls_append(bind, draws);
        lemma_draw_calls_none(bind);
        lemma_draw_calls_none(back);
        lemma_draw_calls_of_draws(textures, primitives, primitives.len() as int);
    }
}

/// A frame without shapes asks for no call: the pipeline stays exactly as it
/// is.
pub proof fn lemma_empty_frame_binds_nothing(
    objects: PipelineObjects,
    restore: bool,
    device: PipelineView,
    textures: Map<TextureId, TextureView>,
    render_target: Handle,
    depth_stencil_target: Handle,
    frame_size: (u32, u32),
    primitives: Seq<Primitive>,
)
    ensures
        frame_commands(
            objects,
            restore,
            device,
            textures,
            render_target,
            depth_stencil_target,
            frame_size,
            0,
            primitives,
        ) == Seq::<CommandView>::empty(),
        run(
            device,
            frame_commands(
                objects,
                restore,
                device,
                textures,
                render_target,
                depth_stencil_target,
                frame_size,
                0,
                primitives,
            ),
        ) == device,
{
}

/// With state restoring on, the calls of a frame leave every binding that a
/// state block covers as it was before them: topology, input layout,
/// shaders, rasterizer state, viewports, samplers, render targets,
/// depth-stencil view, blend state with factor and mask, depth-stencil state
/// with its reference.
pub proof fn lemma_frame_restores_bindings(
    objects: PipelineObjects,
    device: PipelineView,
    textures: Map<TextureId, TextureView>,
    render_target: Handle,
    depth_stencil_target: Handle,
    frame_size: (u32, u32),
    shapes: usize,
    primitives: Seq<Primitive>,
)
    ensures
        run(
            device,
            frame_commands(
                objects,
                true,
                device,
                textures,
                render_target,
                depth_stencil_target,
                frame_size,
                shapes,
                primitives,
            ),
        ).bindings == device.bindings,
{
    if shapes != 0 {
        let bind = setup_commands(objects, render_target, depth_stencil_target, frame_size);
        let draws = draw_commands(textures, primitives, primitives.len() as int);
        lemma_restore_undoes(device, bind + draws);
    }
}

} // verus!

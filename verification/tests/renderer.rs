use std::cell::RefCell;

use egui_directx10::bootstrap::{
    AddressMode, Blend, BlendOp, Comparison, CullMode, FillMode, Filter, ObjectDesc,
    PipelineObjects, Semantic, Shader, StencilOp,
};
use egui_directx10::command::{BufferDesc, BufferKind, Command, Handle, Viewport};
use egui_directx10::image::{ColorImage, FontImage, ImageData, ImageDelta, TextureId, TexturesDelta};
use egui_directx10::pipeline::Pipeline;
use egui_directx10::renderer::{Mesh, Primitive, Renderer, RendererOutput};
use egui_directx10::state_block::StateBlock;
use egui_directx10::texture::{Fault, Format, TextureDesc, UpdateError, Upload, Usage};

type Res = u32;

fn make_object(log: &RefCell<Vec<ObjectDesc>>, fail_at: Option<usize>, d: &ObjectDesc) -> Result<Handle, String> {
    let n = log.borrow().len();
    if fail_at == Some(n) {
        return Err(format!("object {} refused", n));
    }
    log.borrow_mut().push(*d);
    Ok(Handle(100 + n as u64))
}

fn renderer(gamma: bool, restore: bool) -> Renderer<Res> {
    let log = RefCell::new(Vec::new());
    match Renderer::new(&|d: &ObjectDesc| make_object(&log, None, d), gamma, restore) {
        Ok(r) => r,
        Err(e) => panic!("{}", e),
    }
}

fn make_texture(desc: &TextureDesc, _pixels: &Vec<[u8; 4]>) -> Result<Res, String> {
    if desc.width == 0 {
        Err("empty texture".to_string())
    } else {
        Ok((desc.width * 10 + desc.height) as Res)
    }
}

fn write(res: Res, _upload: &Upload) -> Res {
    res + 1000
}

const RT: Handle = Handle(7);
const DS: Handle = Handle(8);
const T1: TextureId = TextureId::Managed(1);
const T2: TextureId = TextureId::User(9);

fn no_delta() -> TexturesDelta {
    TexturesDelta { set: vec![], free: vec![] }
}

fn set_one(id: TextureId, width: usize, height: usize) -> TexturesDelta {
    let image = ImageData::Color(ColorImage { width, height, pixels: vec![[1, 2, 3, 4]; width * height] });
    TexturesDelta { set: vec![(id, ImageDelta { image, pos: None })], free: vec![] }
}

fn mesh(vertices: u32, indices: u32, texture_id: TextureId) -> Primitive {
    Primitive::Mesh(Mesh { vertices, indices, texture_id })
}

fn frame(
    r: &mut Renderer<Res>,
    device: &Pipeline,
    size: Result<(u32, u32), String>,
    textures_delta: TexturesDelta,
    shapes: usize,
    primitives: Vec<Primitive>,
) -> Result<Vec<Command>, UpdateError<String>> {
    r.render(device, RT, DS, size, RendererOutput { textures_delta, shapes, primitives }, &make_texture, &write)
}

fn setup(objects: PipelineObjects, width: u32, height: u32) -> Vec<Command> {
    vec![
        Command::SetPrimitiveTopology(4),
        Command::SetInputLayout(Some(objects.input_layout)),
        Command::SetVertexShader(Some(objects.vertex_shader)),
        Command::SetPixelShader(Some(objects.pixel_shader)),
        Command::SetRasterizerState(Some(objects.rasterizer_state)),
        Command::SetViewports(vec![Viewport {
            top_left_x: 0,
            top_left_y: 0,
            width,
            height,
            min_depth: 0.0f32.to_bits(),
            max_depth: 1.0f32.to_bits(),
        }]),
        Command::SetSamplers { start: 0, samplers: vec![Some(objects.sampler_state)] },
        Command::SetRenderTargets { targets: vec![Some(RT)], depth_stencil: Some(DS) },
        Command::SetBlendState {
            state: Some(objects.blend_state),
            factor: [0.0f32.to_bits(); 4],
            sample_mask: u32::MAX,
        },
        Command::SetDepthStencilState { state: Some(objects.depth_stencil_state), stencil_ref: 2 },
    ]
}

fn draw(primitive: usize, vertices: u32, indices: u32, texture: Option<TextureId>) -> Vec<Command> {
    let mut out = vec![
        Command::CreateIndexBuffer {
            primitive,
            desc: BufferDesc { byte_width: indices as u64 * 4, usage: Usage::Immutable, kind: BufferKind::Index },
        },
        Command::CreateVertexBuffer {
            primitive,
            desc: BufferDesc { byte_width: vertices as u64 * 32, usage: Usage::Immutable, kind: BufferKind::Vertex },
        },
        Command::SetVertexBuffer { primitive, stride: 32, offset: 0 },
        Command::SetIndexBuffer { primitive, format: Format::R32Uint, offset: 0 },
        Command::SetScissorRect { primitive },
    ];
    if let Some(texture) = texture {
        out.push(Command::SetShaderResource { texture });
    }
    out.push(Command::DrawIndexed { index_count: indices, start_index: 0, base_vertex: 0 });
    out
}

fn draws_in(commands: &[Command]) -> usize {
    commands.iter().filter(|c| matches!(c, Command::DrawIndexed { .. })).count()
}

/// A pipeline on which a caller has bound things of its own.
fn busy_pipeline() -> Pipeline {
    let mut p = Pipeline::unbound();
    p.bindings.primitive_topology = 5;
    p.bindings.input_layout = Some(Handle(31));
    p.bindings.vertex_shader = Some(Handle(32));
    p.bindings.rasterizer_state = Some(Handle(33));
    p.bindings.viewports = vec![
        Viewport { top_left_x: 1, top_left_y: 2, width: 30, height: 40, min_depth: 0, max_depth: 1.0f32.to_bits() },
        Viewport { top_left_x: -5, top_left_y: 0, width: 3, height: 4, min_depth: 7, max_depth: 9 },
    ];
    p.bindings.sampler_states[0] = Some(Handle(34));
    p.bindings.sampler_states[15] = Some(Handle(35));
    p.bindings.render_targets[0] = Some(Handle(36));
    p.bindings.render_targets[3] = Some(Handle(37));
    p.bindings.depth_stencil_view = Some(Handle(38));
    p.bindings.blend_state = Some(Handle(39));
    p.bindings.blend_factor = [1, 2, 3, 4];
    p.bindings.sample_mask = 0x0f0f;
    p.bindings.stencil_ref = 77;
    p
}

#[test]
fn new_makes_the_seven_objects_in_order() {
    let log = RefCell::new(Vec::new());
    let r: Renderer<Res> = match Renderer::new(&|d: &ObjectDesc| make_object(&log, None, d), false, true) {
        Ok(r) => r,
        Err(e) => panic!("{}", e),
    };
    assert!(r.restore_state_after_render());
    assert_eq!(
        r.pipeline_objects(),
        PipelineObjects {
            input_layout: Handle(100),
            vertex_shader: Handle(101),
            pixel_shader: Handle(102),
            rasterizer_state: Handle(103),
            depth_stencil_state: Handle(104),
            sampler_state: Handle(105),
            blend_state: Handle(106),
        }
    );
    assert_eq!(r.resolve(T1), None);
    let log = log.borrow();
    assert_eq!(log.len(), 7);
    match log[0] {
        ObjectDesc::InputLayout(e) => {
            assert_eq!(
                [e[0].semantic, e[1].semantic, e[2].semantic],
                [Semantic::Position, Semantic::TexCoord, Semantic::Color]
            );
            assert_eq!(
                [e[0].format, e[1].format, e[2].format],
                [Format::R32G32Float, Format::R32G32Float, Format::R32G32B32A32Float]
            );
            assert_eq!([e[0].byte_offset, e[1].byte_offset, e[2].byte_offset], [0, 8, 16]);
            assert!(e.iter().all(|x| x.input_slot == 0 && x.semantic_index == 0));
        },
        other => panic!("{:?}", other),
    }
    assert_eq!(log[1], ObjectDesc::VertexShader(Shader::Vertex));
    assert_eq!(log[2], ObjectDesc::PixelShader(Shader::PixelLinear));
    match log[3] {
        ObjectDesc::RasterizerState(d) => {
            assert_eq!(d.fill_mode, FillMode::Solid);
            assert_eq!(d.cull_mode, CullMode::Off);
            assert!(d.scissor_enable && d.multisample_enable && d.antialiased_line_enable);
            assert!(d.depth_clip_enable && d.front_counter_clockwise);
        },
        other => panic!("{:?}", other),
    }
    match log[4] {
        ObjectDesc::DepthStencilState(d) => {
            assert!(d.depth_enable && d.depth_write_all && d.stencil_enable);
            assert_eq!(d.depth_func, Comparison::GreaterEqual);
            assert_eq!((d.stencil_read_mask, d.stencil_write_mask), (0xff, 0xff));
            for face in [d.front_face, d.back_face] {
                assert_eq!(face.fail, StencilOp::Keep);
                assert_eq!(face.depth_fail, StencilOp::Keep);
                assert_eq!(face.pass, StencilOp::Replace);
                assert_eq!(face.func, Comparison::Always);
            }
        },
        other => panic!("{:?}", other),
    }
    match log[5] {
        ObjectDesc::SamplerState(d) => {
            assert_eq!(d.filter, Filter::MinMagMipLinear);
            assert_eq!([d.address_u, d.address_v, d.address_w], [AddressMode::Border; 3]);
            assert_eq!(d.comparison, Comparison::Always);
            assert_eq!(d.border_color, [1.0f32.to_bits(); 4]);
        },
        other => panic!("{:?}", other),
    }
    match log[6] {
        ObjectDesc::BlendState(d) => {
            assert!(!d.alpha_to_coverage_enable);
            assert_eq!(d.blend_enable, [true, false, false, false, false, false, false, false]);
            assert_eq!((d.src_blend, d.dest_blend, d.blend_op), (Blend::SrcAlpha, Blend::InvSrcAlpha, BlendOp::Add));
            assert_eq!((d.src_blend_alpha, d.dest_blend_alpha, d.blend_op_alpha), (Blend::One, Blend::Zero, BlendOp::Add));
            assert_eq!(d.write_mask, [0x0f, 0, 0, 0, 0, 0, 0, 0]);
        },
        other => panic!("{:?}", other),
    }
}

#[test]
fn new_picks_the_pixel_shader_by_the_gamma_flag() {
    let log = RefCell::new(Vec::new());
    let r: Result<Renderer<Res>, String> = Renderer::new(&|d: &ObjectDesc| make_object(&log, None, d), true, false);
    assert!(r.is_ok());
    assert!(!r.ok().unwrap().restore_state_after_render());
    assert_eq!(log.borrow()[2], ObjectDesc::PixelShader(Shader::PixelGamma));
}

#[test]
fn new_fails_as_a_whole() {
    for n in 0..7 {
        let log = RefCell::new(Vec::new());
        let r: Result<Renderer<Res>, String> =
            Renderer::new(&|d: &ObjectDesc| make_object(&log, Some(n), d), false, false);
        assert_eq!(r.err(), Some(format!("object {} refused", n)));
        assert_eq!(log.borrow().len(), n);
    }
}

#[test]
fn empty_shape_list_asks_for_no_call() {
    let mut r = renderer(false, true);
    let device = busy_pipeline();
    // Primitives without shapes, an unreadable target: still nothing.
    let cmds = frame(&mut r, &device, Err("no size".to_string()), set_one(T1, 2, 2), 0, vec![mesh(3, 3, T1)]);
    assert_eq!(cmds, Ok(vec![]));
    // The textures were changed all the same.
    assert_eq!(r.resolve(T1), Some(&22));
    let mut after = busy_pipeline();
    after.execute_all(&cmds.unwrap());
    assert_eq!(after, device);
}

#[test]
fn frame_binds_draws_and_restores() {
    let mut r = renderer(false, true);
    let device = busy_pipeline();
    let prims = vec![mesh(4, 6, T1), mesh(3, 3, T2)];
    let cmds = frame(&mut r, &device, Ok((800, 600)), set_one(T1, 2, 2), 2, prims).unwrap();
    let mut want = setup(r.pipeline_objects(), 800, 600);
    want.extend(draw(0, 4, 6, Some(T1)));
    // No texture is live under T2: the bind is left out, the draw stays.
    want.extend(draw(1, 3, 3, None));
    let mut restore = Vec::new();
    StateBlock::new(&device).apply(&mut restore);
    want.extend(restore);
    assert_eq!(cmds, want);
    assert_eq!(draws_in(&cmds), 2);
}

#[test]
fn without_restoring_the_frame_ends_with_its_last_draw() {
    let mut r = renderer(true, false);
    let device = busy_pipeline();
    let cmds = frame(&mut r, &device, Ok((64, 32)), set_one(T2, 1, 1), 1, vec![mesh(3, 3, T2)]).unwrap();
    let mut want = setup(r.pipeline_objects(), 64, 32);
    want.extend(draw(0, 3, 3, Some(T2)));
    assert_eq!(cmds, want);
}

#[test]
fn incomplete_triangles_are_not_drawn() {
    let mut r = renderer(false, false);
    let device = Pipeline::unbound();
    for indices in [1u32, 2, 4, 5, 7, 100, u32::MAX - 1] {
        let cmds = frame(&mut r, &device, Ok((10, 10)), no_delta(), 1, vec![mesh(9, indices, T1)]).unwrap();
        assert_eq!(cmds, setup(r.pipeline_objects(), 10, 10), "{} indices", indices);
        assert_eq!(draws_in(&cmds), 0);
    }
}

#[test]
fn meshes_without_indices_and_callbacks_are_not_drawn() {
    let mut r = renderer(false, false);
    let device = Pipeline::unbound();
    let prims = vec![mesh(9, 0, T1), Primitive::Callback, mesh(0, 3, T1), Primitive::Callback];
    let cmds = frame(&mut r, &device, Ok((10, 10)), no_delta(), 4, prims).unwrap();
    let mut want = setup(r.pipeline_objects(), 10, 10);
    want.extend(draw(2, 0, 3, None));
    assert_eq!(cmds, want);
}

#[test]
fn meshes_are_drawn_in_the_order_given() {
    let mut r = renderer(false, false);
    let device = Pipeline::unbound();
    let prims = vec![mesh(3, 3, T1), mesh(5, 4, T1), mesh(6, 9, T2), mesh(8, 12, T1)];
    let delta = TexturesDelta {
        set: vec![
            (T1, ImageDelta { image: ImageData::Font(FontImage { width: 1, height: 1, pixels: vec![3] }), pos: None }),
            (T2, ImageDelta { image: ImageData::Font(FontImage { width: 1, height: 1, pixels: vec![3] }), pos: None }),
        ],
        free: vec![T2],
    };
    let cmds = frame(&mut r, &device, Ok((10, 10)), delta, 4, prims).unwrap();
    let mut want = setup(r.pipeline_objects(), 10, 10);
    want.extend(draw(0, 3, 3, Some(T1)));
    want.extend(draw(2, 6, 9, None));
    want.extend(draw(3, 8, 12, Some(T1)));
    assert_eq!(cmds, want);
    assert_eq!(draws_in(&cmds), 3);
}

#[test]
fn buffers_are_sized_to_the_mesh() {
    let mut r = renderer(false, false);
    let device = Pipeline::unbound();
    let cmds = frame(&mut r, &device, Ok((1, 1)), no_delta(), 1, vec![mesh(u32::MAX, 4_294_967_292, T1)]).unwrap();
    assert_eq!(
        cmds[10],
        Command::CreateIndexBuffer {
            primitive: 0,
            desc: BufferDesc { byte_width: 17_179_869_168, usage: Usage::Immutable, kind: BufferKind::Index },
        }
    );
    assert_eq!(
        cmds[11],
        Command::CreateVertexBuffer {
            primitive: 0,
            desc: BufferDesc { byte_width: 137_438_953_440, usage: Usage::Immutable, kind: BufferKind::Vertex },
        }
    );
}

#[test]
fn restored_bindings_equal_the_bindings_found() {
    let mut r = renderer(false, true);
    let device = busy_pipeline();
    let prims = vec![mesh(4, 6, T1), mesh(3, 3, T2), Primitive::Callback];
    let cmds = frame(&mut r, &device, Ok((800, 600)), set_one(T1, 2, 2), 3, prims).unwrap();
    let mut after = busy_pipeline();
    after.execute_all(&cmds);
    assert_eq!(after.bindings, device.bindings);
    // What no state block covers stays as the last draw left it.
    assert_eq!(after.vertex_buffer, Some(1));
    assert_eq!(after.index_buffer, Some(1));
    assert_eq!(after.scissor, Some(1));
    assert_eq!(after.shader_resource, Some(T1));
}

#[test]
fn without_restoring_the_renderer_bindings_stay() {
    let mut r = renderer(false, false);
    let device = busy_pipeline();
    let cmds = frame(&mut r, &device, Ok((800, 600)), no_delta(), 1, vec![]).unwrap();
    let mut after = busy_pipeline();
    after.execute_all(&cmds);
    let o = r.pipeline_objects();
    assert_eq!(after.bindings.primitive_topology, 4);
    assert_eq!(after.bindings.input_layout, Some(o.input_layout));
    assert_eq!(after.bindings.pixel_shader, Some(o.pixel_shader));
    assert_eq!(after.bindings.viewports.len(), 1);
    assert_eq!(after.bindings.sampler_states[0], Some(o.sampler_state));
    assert_eq!(after.bindings.sampler_states[15], Some(Handle(35)));
    assert_eq!(after.bindings.render_targets[0], Some(RT));
    assert_eq!(after.bindings.render_targets[3], None);
    assert_eq!(after.bindings.depth_stencil_view, Some(DS));
    assert_eq!(after.bindings.stencil_ref, 2);
    assert_eq!(after.bindings.sample_mask, u32::MAX);
}

#[test]
fn failed_texture_change_asks_for_no_call() {
    let mut r = renderer(false, true);
    let device = busy_pipeline();
    let bad = TexturesDelta {
        set: vec![
            (T1, ImageDelta { image: ImageData::Font(FontImage { width: 1, height: 1, pixels: vec![3] }), pos: None }),
            (T2, ImageDelta { image: ImageData::Font(FontImage { width: 0, height: 0, pixels: vec![] }), pos: None }),
        ],
        free: vec![],
    };
    assert_eq!(
        frame(&mut r, &device, Ok((10, 10)), bad, 1, vec![mesh(3, 3, T1)]),
        Err(UpdateError::Device("empty texture".to_string()))
    );
    assert!(r.resolve(T1).is_some());
    assert!(r.resolve(T2).is_none());
    let odd = TexturesDelta {
        set: vec![(
            T1,
            ImageDelta { image: ImageData::Color(ColorImage { width: 1, height: 1, pixels: vec![[0; 4]] }), pos: Some((0, 0)) },
        )],
        free: vec![],
    };
    assert_eq!(
        frame(&mut r, &device, Ok((10, 10)), odd, 1, vec![mesh(3, 3, T1)]),
        Err(UpdateError::Rejected(Fault::NotCoverage))
    );
}

#[test]
fn unreadable_target_fails_after_the_textures_changed() {
    let mut r = renderer(false, true);
    let device = busy_pipeline();
    assert_eq!(
        frame(&mut r, &device, Err("lost".to_string()), set_one(T1, 3, 1), 1, vec![mesh(3, 3, T1)]),
        Err(UpdateError::Device("lost".to_string()))
    );
    assert_eq!(r.resolve(T1), Some(&31));
    assert_eq!(r.texture_pool().get(T1).map(|t| (t.width, t.height)), Some((3, 1)));
}

#[test]
fn windows_reach_the_device_through_upload() {
    let mut r = renderer(false, false);
    let device = Pipeline::unbound();
    let delta = TexturesDelta {
        set: vec![
            (T1, ImageDelta { image: ImageData::Font(FontImage { width: 2, height: 2, pixels: vec![0; 4] }), pos: None }),
            (T1, ImageDelta { image: ImageData::Font(FontImage { width: 1, height: 1, pixels: vec![9] }), pos: Some((1, 1)) }),
            (T1, ImageDelta { image: ImageData::Font(FontImage { width: 1, height: 1, pixels: vec![8] }), pos: Some((0, 0)) }),
            // Touching nothing is still a write.
            (T1, ImageDelta { image: ImageData::Font(FontImage { width: 0, height: 0, pixels: vec![] }), pos: Some((2, 2)) }),
        ],
        free: vec![],
    };
    assert_eq!(frame(&mut r, &device, Ok((1, 1)), delta, 0, vec![]), Ok(vec![]));
    assert_eq!(r.resolve(T1), Some(&3022));
}

#[test]
fn drawable_means_whole_triangles() {
    let m = |indices: u32| Mesh { vertices: 3, indices, texture_id: T1 };
    assert!(!m(0).is_drawable());
    assert!(!m(1).is_drawable());
    assert!(!m(2).is_drawable());
    assert!(m(3).is_drawable());
    assert!(!m(4).is_drawable());
    assert!(m(6).is_drawable());
    assert!(m(u32::MAX).is_drawable());
}

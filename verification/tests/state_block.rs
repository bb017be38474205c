use egui_directx10::command::{Command, Handle, Viewport};
use egui_directx10::pipeline::Pipeline;
use egui_directx10::state_block::{StateBlock, RENDER_TARGET_SLOTS, SAMPLER_SLOTS};

fn caller_state() -> Pipeline {
    let mut p = Pipeline::unbound();
    p.bindings.primitive_topology = 1;
    p.bindings.input_layout = Some(Handle(1));
    p.bindings.pixel_shader = Some(Handle(2));
    p.bindings.viewports =
        vec![Viewport { top_left_x: 3, top_left_y: 4, width: 5, height: 6, min_depth: 0, max_depth: 0x3f80_0000 }];
    p.bindings.sampler_states[2] = Some(Handle(3));
    p.bindings.render_targets[7] = Some(Handle(4));
    p.bindings.depth_stencil_view = Some(Handle(5));
    p.bindings.blend_factor = [0x3f00_0000; 4];
    p.bindings.sample_mask = 0xff;
    p.bindings.depth_stencil_state = Some(Handle(6));
    p.bindings.stencil_ref = 9;
    p
}

#[test]
fn unbound_pipeline_has_every_slot_empty() {
    let p = Pipeline::unbound();
    assert_eq!(SAMPLER_SLOTS, 16);
    assert_eq!(RENDER_TARGET_SLOTS, 8);
    assert_eq!(p.bindings.sampler_states, vec![None; 16]);
    assert_eq!(p.bindings.render_targets, vec![None; 8]);
    assert!(p.bindings.viewports.is_empty());
    assert_eq!(p.bindings.input_layout, None);
    assert_eq!(p.bindings.depth_stencil_view, None);
    assert_eq!((p.vertex_buffer, p.index_buffer, p.scissor, p.shader_resource), (None, None, None, None));
}

#[test]
fn capture_copies_every_binding() {
    let p = caller_state();
    let block = StateBlock::new(&p);
    assert_eq!(block, p.bindings);
}

#[test]
fn apply_writes_every_category_back() {
    let p = caller_state();
    let block = StateBlock::new(&p);
    let mut out = vec![Command::SetScissorRect { primitive: 3 }];
    block.apply(&mut out);
    assert_eq!(
        out,
        vec![
            Command::SetScissorRect { primitive: 3 },
            Command::SetPrimitiveTopology(1),
            Command::SetInputLayout(Some(Handle(1))),
            Command::SetVertexShader(None),
            Command::SetPixelShader(Some(Handle(2))),
            Command::SetRasterizerState(None),
            Command::SetViewports(p.bindings.viewports.clone()),
            Command::SetSamplers { start: 0, samplers: p.bindings.sampler_states.clone() },
            Command::SetRenderTargets {
                targets: p.bindings.render_targets.clone(),
                depth_stencil: Some(Handle(5)),
            },
            Command::SetBlendState { state: None, factor: [0x3f00_0000; 4], sample_mask: 0xff },
            Command::SetDepthStencilState { state: Some(Handle(6)), stencil_ref: 9 },
        ]
    );
}

#[test]
fn capture_mutate_apply_round_trip() {
    let before = caller_state();
    let mut device = caller_state();
    let block = StateBlock::new(&device);
    let mutate = vec![
        Command::SetPrimitiveTopology(4),
        Command::SetInputLayout(Some(Handle(50))),
        Command::SetVertexShader(Some(Handle(51))),
        Command::SetPixelShader(None),
        Command::SetRasterizerState(Some(Handle(52))),
        Command::SetViewports(vec![]),
        Command::SetSamplers { start: 1, samplers: vec![Some(Handle(53)), None, Some(Handle(54))] },
        Command::SetRenderTargets { targets: vec![Some(Handle(55))], depth_stencil: None },
        Command::SetBlendState { state: Some(Handle(56)), factor: [0; 4], sample_mask: 1 },
        Command::SetDepthStencilState { state: None, stencil_ref: 2 },
    ];
    device.execute_all(&mutate);
    assert_ne!(device.bindings, before.bindings);
    assert_eq!(device.bindings.sampler_states[1], Some(Handle(53)));
    assert_eq!(device.bindings.sampler_states[2], None);
    assert_eq!(device.bindings.sampler_states[3], Some(Handle(54)));
    assert_eq!(device.bindings.render_targets, {
        let mut t = vec![None; 8];
        t[0] = Some(Handle(55));
        t
    });
    let mut restore = Vec::new();
    block.apply(&mut restore);
    device.execute_all(&restore);
    assert_eq!(device, before);
}

#[test]
fn samplers_beyond_the_last_slot_are_dropped() {
    let mut device = Pipeline::unbound();
    device.execute(&Command::SetSamplers { start: 14, samplers: vec![Some(Handle(1)), Some(Handle(2)), Some(Handle(3))] });
    assert_eq!(device.bindings.sampler_states[13], None);
    assert_eq!(device.bindings.sampler_states[14], Some(Handle(1)));
    assert_eq!(device.bindings.sampler_states[15], Some(Handle(2)));
    assert_eq!(device.bindings.sampler_states.len(), 16);
    device.execute(&Command::SetSamplers { start: usize::MAX, samplers: vec![Some(Handle(9))] });
    device.execute(&Command::SetSamplers { start: 16, samplers: vec![Some(Handle(9))] });
    assert_eq!(device.bindings.sampler_states[15], Some(Handle(2)));
}

#[test]
fn draws_and_buffers_bind_nothing() {
    let mut device = caller_state();
    let before = device.clone();
    device.execute(&Command::DrawIndexed { index_count: 3, start_index: 0, base_vertex: 0 });
    assert_eq!(device, before);
}

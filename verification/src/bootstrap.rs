//! The pipeline objects that never change from frame to frame, and how they
//! are described to the device that makes them.

use vstd::prelude::*;
use crate::command::{Handle, FLOAT_ONE};
use crate::texture::Format;

verus! {

/// The precompiled shaders that come with the renderer.
#[derive(Clone, Copy, PartialEq, Eq, Structural, Debug)]
pub enum Shader {
    /// The vertex shader.
    Vertex,
    /// The pixel shader that writes linear colour.
    PixelLinear,
    /// The pixel shader that writes gamma-encoded colour.
    PixelGamma,
}

/// What an element of a vertex means.
#[derive(Clone, Copy, PartialEq, Eq, Structural, Debug)]
pub enum Semantic {
    Position,
    TexCoord,
    Color,
}

/// One element of the vertex layout, read per vertex from input slot 0.
#[derive(Clone, Copy, PartialEq, Eq, Structural, Debug)]
pub struct InputElement {
    pub semantic: Semantic,
    pub semantic_index: u32,
    pub format: Format,
    pub input_slot: u32,
    /// Bytes from the start of the vertex.
    pub byte_offset: u32,
}

#[derive(Clone, Copy, PartialEq, Eq, Structural, Debug)]
pub enum FillMode {
    Wireframe,
    Solid,
}

#[derive(Clone, Copy, PartialEq, Eq, Structural, Debug)]
pub enum CullMode {
    Off,
    Front,
    Back,
}

/// Depth bias and its two float companions are zero and not listed.
#[derive(Clone, Copy, PartialEq, Eq, Structural, Debug)]
pub struct RasterizerDesc {
    pub fill_mode: FillMode,
    pub cull_mode: CullMode,
    pub front_counter_clockwise: bool,
    pub depth_clip_enable: bool,
    pub scissor_enable: bool,
    pub multisample_enable: bool,
    pub antialiased_line_enable: bool,
}

#[derive(Clone, Copy, PartialEq, Eq, Structural, Debug)]
pub enum Comparison {
    Never,
    Less,
    Equal,
    LessEqual,
    Greater,
    NotEqual,
    GreaterEqual,
    Always,
}

#[derive(Clone, Copy, PartialEq, Eq, Structural, Debug)]
pub enum StencilOp {
    Keep,
    Zero,
    Replace,
}

/// What the stencil test does on one face.
#[derive(Clone, Copy, PartialEq, Eq, Structural, Debug)]
pub struct StencilFace {
    pub fail: StencilOp,
    pub depth_fail: StencilOp,
    pub pass: StencilOp,
    pub func: Comparison,
}

#[derive(Clone, Copy, PartialEq, Eq, Structural, Debug)]
pub struct DepthStencilDesc {
    pub depth_enable: bool,
    /// Depth writes go to the whole buffer.
    pub depth_write_all: bool,
    pub depth_func: Comparison,
    pub stencil_enable: bool,
    pub stencil_read_mask: u8,
    pub stencil_write_mask: u8,
    pub front_face: StencilFace,
    pub back_face: StencilFace,
}

#[derive(Clone, Copy, PartialEq, Eq, Structural, Debug)]
pub enum Filter {
    MinMagMipPoint,
    MinMagMipLinear,
}

#[derive(Clone, Copy, PartialEq, Eq, Structural, Debug)]
pub enum AddressMode {
    Wrap,
    Mirror,
    Clamp,
    Border,
}

/// The border colour is four 32-bit floats as their bit patterns. Level of
/// detail bias and bounds and the anisotropy limit are zero and not listed.
#[derive(Clone, Copy, PartialEq, Eq, Debug)]
pub struct SamplerDesc {
    pub filter: Filter,
    pub address_u: AddressMode,
    pub address_v: AddressMode,
    pub address_w: AddressMode,
    pub comparison: Comparison,
    pub border_color: [u32; 4],
}

#[derive(Clone, Copy, PartialEq, Eq, Structural, Debug)]
pub enum Blend {
    Zero,
    One,
    SrcAlpha,
    InvSrcAlpha,
}

#[derive(Clone, Copy, PartialEq, Eq, Structural, Debug)]
pub enum BlendOp {
    Add,
    Subtract,
}

/// All four colour channels.
pub const COLOR_WRITE_ALL: u8 = 0x0f;

/// `blend_enable` and `write_mask` have one entry per render-target slot.
#[derive(Clone, Copy, PartialEq, Eq, Debug)]
pub struct BlendDesc {
    pub alpha_to_coverage_enable: bool,
    pub blend_enable: [bool; 8],
    pub src_blend: Blend,
    pub dest_blend: Blend,
    pub blend_op: BlendOp,
    pub src_blend_alpha: Blend,
    pub dest_blend_alpha: Blend,
    pub blend_op_alpha: BlendOp,
    pub write_mask: [u8; 8],
}

/// What the device is asked to make.
#[derive(Clone, Copy, PartialEq, Eq, Debug)]
pub enum ObjectDesc {
    /// The input layout for vertices of these elements, checked against the
    /// vertex shader.
    InputLayout([InputElement; 3]),
    VertexShader(Shader),
    PixelShader(Shader),
    RasterizerState(RasterizerDesc),
    DepthStencilState(DepthStencilDesc),
    SamplerState(SamplerDesc),
    BlendState(BlendDesc),
}

/// A vertex: position, texture coordinate, colour, packed in this order.
pub open spec fn input_elements() -> [InputElement; 3] {
    [
        InputElement {
            semantic: Semantic::Position,
            semantic_index: 0,
            format: Format::R32G32Float,
            input_slot: 0,
            byte_offset: 0,
        },
        InputElement {
            semantic: Semantic::TexCoord,
            semantic_index: 0,
            format: Format::R32G32Float,
            input_slot: 0,
            byte_offset: 8,
        },
        InputElement {
            semantic: Semantic::Color,
            semantic_index: 0,
            format: Format::R32G32B32A32Float,
            input_slot: 0,
            byte_offset: 16,
        },
    ]
}

/// Solid fill without culling; clipping by depth and by the scissor
/// rectangle; multisampling and antialiased lines on.
pub open spec fn rasterizer_desc() -> RasterizerDesc {
    RasterizerDesc {
        fill_mode: FillMode::Solid,
        cull_mode: CullMode::Off,
        front_counter_clockwise: true,
        depth_clip_enable: true,
        scissor_enable: true,
        multisample_enable: true,
        antialiased_line_enable: true,
    }
}

/// Keep on failure, replace on pass, always pass.
pub open spec fn stencil_face() -> StencilFace {
    StencilFace {
        fail: StencilOp::Keep,
        depth_fail: StencilOp::Keep,
        pass: StencilOp::Replace,
        func: Comparison::Always,
    }
}

/// Depth test "greater or equal" with writes; stencil always replaced, on
/// both faces, with full masks.
pub open spec fn depth_stencil_desc() -> DepthStencilDesc {
    DepthStencilDesc {
        depth_enable: true,
        depth_write_all: true,
        depth_func: Comparison::GreaterEqual,
        stencil_enable: true,
        stencil_read_mask: 0xff,
        stencil_write_mask: 0xff,
        front_face: stencil_face(),
        back_face: stencil_face(),
    }
}

/// Linear filtering; outside the texture the border colour, opaque white.
pub open spec fn sampler_desc() -> SamplerDesc {
    SamplerDesc {
        filter: Filter::MinMagMipLinear,
        address_u: AddressMode::Border,
        address_v: AddressMode::Border,
        address_w: AddressMode::Border,
        comparison: Comparison::Always,
        border_color: [FLOAT_ONE, FLOAT_ONE, FLOAT_ONE, FLOAT_ONE],
    }
}

/// Source alpha over inverse source alpha for colour, one over zero for
/// alpha; on render-target slot 0 only, where all channels are written.
pub open spec fn blend_desc() -> BlendDesc {
    BlendDesc {
        alpha_to_coverage_enable: false,
        blend_enable: [true, false, false, false, false, false, false, false],
        src_blend: Blend::SrcAlpha,
        dest_blend: Blend::InvSrcAlpha,
        blend_op: BlendOp::Add,
        src_blend_alpha: Blend::One,
        dest_blend_alpha: Blend::Zero,
        blend_op_alpha: BlendOp::Add,
        write_mask: [COLOR_WRITE_ALL, 0u8, 0u8, 0u8, 0u8, 0u8, 0u8, 0u8],
    }
}

/// The pixel shader for the output the caller asked for.
pub open spec fn pixel_shader_for(gamma_output: bool) -> Shader {
    if gamma_output {
        Shader::PixelGamma
    } else {
        Shader::PixelLinear
    }
}

/// The seven objects of a renderer, in the order in which they are made.
pub open spec fn pipeline_objects(gamma_output: bool) -> Seq<ObjectDesc> {
    seq![
        ObjectDesc::InputLayout(input_elements()),
        ObjectDesc::VertexShader(Shader::Vertex),
        ObjectDesc::PixelShader(pixel_shader_for(gamma_output)),
        ObjectDesc::RasterizerState(rasterizer_desc()),
        ObjectDesc::DepthStencilState(depth_stencil_desc()),
        ObjectDesc::SamplerState(sampler_desc()),
        ObjectDesc::BlendState(blend_desc()),
    ]
}

/// The description of the object at position `k` of `pipeline_objects`.
pub(crate) fn object_desc(gamma_output: bool, k: usize) -> (d: ObjectDesc)
    requires
        k < 7,
    ensures
        d == pipeline_objects(gamma_output)[k as int],
{
    let face = StencilFace {
        fail: StencilOp::Keep,
        depth_fail: StencilOp::Keep,
        pass: StencilOp::Replace,
        func: Comparison::Always,
    };
    if k == 0 {
        let elements = [
            InputElement {
                semantic: Semantic::Position,
                semantic_index: 0,
                format: Format::R32G32Float,
                input_slot: 0,
                byte_offset: 0,
            },
            InputElement {
                semantic: Semantic::TexCoord,
                semantic_index: 0,
                format: Format::R32G32Float,
                input_slot: 0,
                byte_offset: 8,
            },
            InputElement {
                semantic: Semantic::Color,
                semantic_index: 0,
                format: Format::R32G32B32A32Float,
                input_slot: 0,
                byte_offset: 16,
            },
        ];
        assert(elements =~= input_elements());
        ObjectDesc::InputLayout(elements)
    } else if k == 1 {
        ObjectDesc::VertexShader(Shader::Vertex)
    } else if k == 2 {
        ObjectDesc::PixelShader(
            if gamma_output {
                Shader::PixelGamma
            } else {
                Shader::PixelLinear
            },
        )
    } else if k == 3 {
        ObjectDesc::RasterizerState(
            RasterizerDesc {
                fill_mode: FillMode::Solid,
                cull_mode: CullMode::Off,
                front_counter_clockwise: true,
                depth_clip_enable: true,
                scissor_enable: true,
                multisample_enable: true,
                antialiased_line_enable: true,
            },
        )
    } else if k == 4 {
        ObjectDesc::DepthStencilState(
            DepthStencilDesc {
                depth_enable: true,
                depth_write_all: true,
                depth_func: Comparison::GreaterEqual,
                stencil_enable: true,
                stencil_read_mask: 0xff,
                stencil_write_mask: 0xff,
                front_face: face,
                back_face: face,
            },
        )
    } else if k == 5 {
        let border_color = [FLOAT_ONE, FLOAT_ONE, FLOAT_ONE, FLOAT_ONE];
        assert(border_color =~= sampler_desc().border_color);
        ObjectDesc::SamplerState(
            SamplerDesc {
                filter: Filter::MinMagMipLinear,
                address_u: AddressMode::Border,
                address_v: AddressMode::Border,
                address_w: AddressMode::Border,
                comparison: Comparison::Always,
                border_color,
            },
        )
    } else {
        let blend_enable = [true, false, false, false, false, false, false, false];
        let write_mask = [COLOR_WRITE_ALL, 0u8, 0u8, 0u8, 0u8, 0u8, 0u8, 0u8];
        assert(blend_enable =~= blend_desc().blend_enable);
        assert(write_mask =~= blend_desc().write_mask);
        ObjectDesc::BlendState(
            BlendDesc {
                alpha_to_coverage_enable: false,
                blend_enable,
                src_blend: Blend::SrcAlpha,
                dest_blend: Blend::InvSrcAlpha,
                blend_op: BlendOp::Add,
                src_blend_alpha: Blend::One,
                dest_blend_alpha: Blend::Zero,
                blend_op_alpha: BlendOp::Add,
                write_mask,
            },
        )
    }
}

/// The seven objects of a renderer as the device made them.
#[derive(Clone, Copy, PartialEq, Eq, Structural, Debug)]
pub struct PipelineObjects {
    pub input_layout: Handle,
    pub vertex_shader: Handle,
    pub pixel_shader: Handle,
    pub rasterizer_state: Handle,
    pub depth_stencil_state: Handle,
    pub sampler_state: Handle,
    pub blend_state: Handle,
}

impl PipelineObjects {
    /// The objects in the order of `pipeline_objects`.
    pub open spec fn in_order(&self) -> Seq<Handle> {
        seq![
            self.input_layout,
            self.vertex_shader,
            self.pixel_shader,
            self.rasterizer_state,
            self.depth_stencil_state,
            self.sampler_state,
            self.blend_state,
        ]
    }
}

} // verus!

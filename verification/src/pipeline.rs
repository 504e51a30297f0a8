//! The fixed-function state baked into the pipeline state object.

use vstd::prelude::*;

verus! {

/// Render target slots in a pipeline description.
pub const TARGET_SLOTS: usize = 8;

/// Every colour channel is written.
pub const WRITE_ALL: u8 = 15;

/// Every sample is enabled.
pub const SAMPLE_MASK: u32 = 0xFFFF_FFFF;

#[derive(Clone, Copy, PartialEq, Eq, Structural, Debug)]
pub enum Format {
    Unknown,
    /// Four 8-bit normalized channels.
    Rgba8Unorm,
    /// Three single-precision channels.
    Rgb32Float,
}

#[derive(Clone, Copy, PartialEq, Eq, Structural, Debug)]
pub enum Blend {
    Zero,
    One,
}

#[derive(Clone, Copy, PartialEq, Eq, Structural, Debug)]
pub enum BlendOp {
    Add,
    Subtract,
}

#[derive(Clone, Copy, PartialEq, Eq, Structural, Debug)]
pub enum FillMode {
    Wireframe,
    Solid,
}

#[derive(Clone, Copy, PartialEq, Eq, Structural, Debug)]
pub enum CullMode {
    Nothing,
    Front,
    Back,
}

/// Blend state of one render target slot; no logic operation is applied.
#[derive(Clone, Copy, PartialEq, Eq, Structural, Debug)]
pub struct TargetBlend {
    pub blend_enable: bool,
    pub source: Blend,
    pub destination: Blend,
    pub op: BlendOp,
    pub source_alpha: Blend,
    pub destination_alpha: Blend,
    pub op_alpha: BlendOp,
    pub write_mask: u8,
}

/// Rasterizer state; depth bias, its clamp and its slope scale are zero.
#[derive(Clone, Copy, PartialEq, Eq, Structural, Debug)]
pub struct Rasterizer {
    pub fill: FillMode,
    pub cull: CullMode,
    pub front_counter_clockwise: bool,
    pub depth_clip: bool,
    pub multisample: bool,
    pub antialiased_line: bool,
    pub forced_sample_count: u32,
    pub conservative: bool,
}

#[derive(Clone, Copy, PartialEq, Eq, Structural, Debug)]
pub enum Topology {
    Point,
    Line,
    Triangle,
}

/// The single vertex stream, bound to the shader input named POSITION.
#[derive(Clone, Copy, PartialEq, Eq, Structural, Debug)]
pub struct InputElement {
    /// Whether the data advances per vertex rather than per instance.
    pub per_vertex: bool,
    pub semantic_index: u32,
    pub format: Format,
    pub input_slot: u32,
    pub byte_offset: u32,
    pub step_rate: u32,
}

/// Everything but the shaders and the root signature that a triangle-list
/// pipeline state is created from.
#[derive(Clone, PartialEq, Eq, Debug)]
pub struct PipelineDesc {
    /// One entry per render target slot.
    pub blend: Vec<TargetBlend>,
    pub sample_mask: u32,
    pub rasterizer: Rasterizer,
    pub depth_enable: bool,
    pub stencil_enable: bool,
    pub input: InputElement,
    pub topology: Topology,
    pub target_count: u32,
    /// One entry per render target slot.
    pub formats: Vec<Format>,
    pub sample_count: u32,
    pub sample_quality: u32,
}

/// Source one, destination zero, added: the source replaces what was there.
pub open spec fn spec_replace_blend() -> TargetBlend {
    TargetBlend {
        blend_enable: false,
        source: Blend::One,
        destination: Blend::Zero,
        op: BlendOp::Add,
        source_alpha: Blend::One,
        destination_alpha: Blend::Zero,
        op_alpha: BlendOp::Add,
        write_mask: WRITE_ALL,
    }
}

/// Solid fill with back faces culled, clockwise triangles facing front.
pub open spec fn spec_rasterizer() -> Rasterizer {
    Rasterizer {
        fill: FillMode::Solid,
        cull: CullMode::Back,
        front_counter_clockwise: false,
        depth_clip: true,
        multisample: false,
        antialiased_line: false,
        forced_sample_count: 0,
        conservative: false,
    }
}

/// Three floats of position at the start of each vertex in slot 0.
pub open spec fn spec_position_input() -> InputElement {
    InputElement {
        per_vertex: true,
        semantic_index: 0,
        format: Format::Rgb32Float,
        input_slot: 0,
        byte_offset: 0,
        step_rate: 0,
    }
}

impl PipelineDesc {
    /// The fixed-function policy: no blending in any slot, no depth or
    /// stencil test, triangles, one render target of four 8-bit channels in
    /// the first slot, one sample per pixel.
    pub open spec fn is_triangle_policy(self) -> bool {
        &&& self.blend@.len() == TARGET_SLOTS
        &&& forall|i: int| 0 <= i < self.blend@.len() ==> self.blend@[i] == spec_replace_blend()
        &&& self.sample_mask == SAMPLE_MASK
        &&& self.rasterizer == spec_rasterizer()
        &&& !self.depth_enable
        &&& !self.stencil_enable
        &&& self.input == spec_position_input()
        &&& self.topology == Topology::Triangle
        &&& self.target_count == 1
        &&& self.formats@.len() == TARGET_SLOTS
        &&& self.formats@[0] == Format::Rgba8Unorm
        &&& forall|i: int| 1 <= i < self.formats@.len() ==> self.formats@[i] == Format::Unknown
        &&& self.sample_count == 1
        &&& self.sample_quality == 0
    }

    /// Builds the description the triangle's pipeline state is created from.
    pub fn triangle() -> (d: PipelineDesc)
        ensures
            d.is_triangle_policy(),
    {
        let replace = TargetBlend {
            blend_enable: false,
            source: Blend::One,
            destination: Blend::Zero,
            op: BlendOp::Add,
            source_alpha: Blend::One,
            destination_alpha: Blend::Zero,
            op_alpha: BlendOp::Add,
            write_mask: WRITE_ALL,
        };
        let mut blend: Vec<TargetBlend> = Vec::new();
        let mut formats: Vec<Format> = Vec::new();
        let mut slot: usize = 0;
        while slot < TARGET_SLOTS
            invariant
                slot <= TARGET_SLOTS,
                replace == spec_replace_blend(),
                blend@.len() == slot,
                formats@.len() == slot,
                forall|i: int| 0 <= i < slot ==> blend@[i] == spec_replace_blend(),
                forall|i: int| 0 <= i < slot ==> formats@[i] == Format::Unknown,
            decreases TARGET_SLOTS - slot,
        {
            blend.push(replace);
            formats.push(Format::Unknown);
            slot = slot + 1;
        }
        formats.set(0, Format::Rgba8Unorm);
        PipelineDesc {
            blend,
            sample_mask: SAMPLE_MASK,
            rasterizer: Rasterizer {
                fill: FillMode::Solid,
                cull: CullMode::Back,
                front_counter_clockwise: false,
                depth_clip: true,
                multisample: false,
                antialiased_line: false,
                forced_sample_count: 0,
                conservative: false,
            },
            depth_enable: false,
            stencil_enable: false,
            input: InputElement {
                per_vertex: true,
                semantic_index: 0,
                format: Format::Rgb32Float,
                input_slot: 0,
                byte_offset: 0,
                step_rate: 0,
            },
            topology: Topology::Triangle,
            target_count: 1,
            formats,
            sample_count: 1,
            sample_quality: 0,
        }
    }
}

} // verus!

use vstd::prelude::*;
use vstd::std_specs::convert::FromSpecImpl;

verus! {

#[derive(Debug, Clone, Copy, PartialEq, Eq, Structural)]
pub enum IndexFormat {
    U8,
    U16,
}

#[derive(Debug, Clone, Copy, PartialEq, Eq, Structural)]
pub enum TextureFormat {
    Rgba8,
    Rgb565,
}

#[derive(Debug, Clone, Copy, PartialEq, Eq, Structural)]
pub enum FramebufferFormat {
    Rgba8,
    Rgb565,
}

#[derive(Debug, Clone, Copy, PartialEq, Eq, Structural)]
pub struct Viewport {
    pub x: u16,
    pub y: u16,
    pub w: u16,
    pub h: u16,
}

impl Default for Viewport {
    fn default() -> (viewport: Self)
        ensures
            viewport == (Viewport { x: 0, y: 0, w: 400, h: 240 }),
    {
        Viewport { x: 0, y: 0, w: 400, h: 240 }
    }
}

#[derive(Debug, Clone, Copy, PartialEq, Eq, Structural)]
pub struct ScissorRect {
    pub x: u16,
    pub y: u16,
    pub w: u16,
    pub h: u16,
}

impl Default for ScissorRect {
    fn default() -> (scissor: Self)
        ensures
            scissor == (ScissorRect { x: 0, y: 0, w: 400, h: 240 }),
    {
        ScissorRect { x: 0, y: 0, w: 400, h: 240 }
    }
}

impl From<Viewport> for ScissorRect {
    fn from(value: Viewport) -> (rect: Self) {
        ScissorRect { x: value.x, y: value.y, w: value.w, h: value.h }
    }
}

impl FromSpecImpl<Viewport> for ScissorRect {
    open spec fn obeys_from_spec() -> bool {
        true
    }

    /// The rectangle of a viewport: the same origin and the same extent.
    open spec fn from_spec(value: Viewport) -> ScissorRect {
        ScissorRect { x: value.x, y: value.y, w: value.w, h: value.h }
    }
}

impl ScissorRect {
    /// Whether the point lies inside the rectangle; the far edges saturate at the
    /// largest coordinate.
    pub open spec fn holds(self, x: u16, y: u16) -> bool {
        x >= self.x && y >= self.y && x < self.x.saturating_add(self.w) && y < self.y.saturating_add(
            self.h,
        )
    }

    pub fn contains(&self, x: u16, y: u16) -> (inside: bool)
        ensures
            inside == self.holds(x, y),
    {
        x >= self.x && y >= self.y && x < self.x.saturating_add(self.w) && y
            < self.y.saturating_add(self.h)
    }
}

#[derive(Debug, Clone, Copy, PartialEq, Eq, Structural)]
pub struct DepthStencilState {
    pub depth_test_enable: bool,
    pub depth_write_enable: bool,
    pub stencil_enable: bool,
}

#[derive(Debug, Clone, Copy, PartialEq, Eq, Structural)]
pub struct BlendState {
    pub equation_rgb: u8,
    pub equation_alpha: u8,
}

/// Layout of a vertex in the vertex stream, in words.
#[derive(Debug, Clone, Copy, PartialEq, Eq, Structural)]
pub struct VertexFetch {
    pub stride_words: u8,
    pub color_offset_words: u8,
    pub texcoord_offset_words: u8,
}

/// One step of the translated shader.
#[derive(Debug, Clone, Copy, PartialEq, Eq, Structural)]
pub enum ShaderOp {
    XorConst,
    RotateChannels,
}

#[derive(Debug, Clone, Copy, PartialEq, Eq, Structural)]
pub enum GpuEvent {
    FrameComplete,
}

/// One applied register write, as logged.
#[derive(Debug, Clone, Copy, PartialEq, Eq, Structural)]
pub struct GpuTraceEntry {
    pub reg: u16,
    pub value: u32,
}

#[derive(Debug, Clone, Copy, PartialEq, Eq, Structural)]
pub struct PicaStateSnapshot {
    pub attribute_mask: u32,
    pub index_format: IndexFormat,
    pub viewport: Viewport,
    pub scissor: ScissorRect,
    pub depth_stencil: DepthStencilState,
    pub blend: BlendState,
    pub shader_program_hash: u64,
    pub trace_len: usize,
}

/// Mathematical model of the GPU.
pub struct GpuModel {
    pub frame_buffer: Seq<u32>,
    pub depth_buffer: Seq<u16>,
    pub register_file: Map<u16, u32>,
    pub fifo: Seq<u32>,
    pub attribute_mask: u32,
    pub index_format: IndexFormat,
    pub vertex_fetch: VertexFetch,
    pub viewport: Viewport,
    pub scissor: ScissorRect,
    pub depth_stencil: DepthStencilState,
    pub blend: BlendState,
    pub texture_format: TextureFormat,
    pub framebuffer_format: FramebufferFormat,
    pub texture_size: (u16, u16),
    pub texture_data: Seq<u8>,
    pub shader_microcode: Seq<u32>,
    pub shader_constant: u32,
    pub translated_shader: Seq<ShaderOp>,
    pub tev_stage0: u32,
    pub vertex_stream: Seq<u32>,
    pub index_stream: Seq<u16>,
    pub draw_base_vertex: u16,
    pub draw_vertex_count: u16,
    pub trace: Seq<GpuTraceEntry>,
    pub presents: u64,
    pub events: Seq<GpuEvent>,
}

} // verus!

use vstd::prelude::*;

pub mod command;
pub mod gpu;
pub mod pixel;
pub mod state;


pub use command::{PicaCommandBufferPacket, PicaCommandProcessor, PicaRegisterWrite};
pub use gpu::PicaGpu;
pub use state::{
    BlendState, DepthStencilState, FramebufferFormat, GpuEvent, GpuModel, GpuTraceEntry,
    IndexFormat, PicaStateSnapshot, ScissorRect, TextureFormat, Viewport,
};

verus! {

pub const REG_VIEWPORT_XY: u16 = 0x0041;

pub const REG_VIEWPORT_WH: u16 = 0x0042;

pub const REG_SCISSOR_XY: u16 = 0x0043;

pub const REG_SCISSOR_WH: u16 = 0x0044;

pub const REG_ATTRIB_BASE: u16 = 0x0100;

pub const REG_ATTRIB_LAST: u16 = 0x0107;

pub const REG_INDEX_FORMAT: u16 = 0x0110;

pub const REG_VERTEX_FORMAT: u16 = 0x0111;

pub const REG_DEPTH_STENCIL: u16 = 0x0120;

pub const REG_BLEND_EQ: u16 = 0x0130;

pub const REG_TEXTURE_ADDR: u16 = 0x0140;

pub const REG_TEXTURE_SIZE: u16 = 0x0141;

pub const REG_TEXTURE_FORMAT: u16 = 0x0142;

pub const REG_TEV_STAGE0: u16 = 0x0150;

pub const REG_FRAMEBUFFER_FORMAT: u16 = 0x0160;

pub const REG_COLOR_CLEAR: u16 = 0x0200;

pub const REG_DRAW_BASE_VERTEX: u16 = 0x0204;

pub const REG_DRAW_VERTEX_COUNT: u16 = 0x0205;

pub const REG_DRAW_TRIGGER: u16 = 0x0206;

pub const REG_SHADER_CODE: u16 = 0x0300;

pub const REG_SHADER_CONST: u16 = 0x0301;

/// Width of the framebuffer in pixels.
pub const FRAME_WIDTH: usize = 400;

/// Height of the framebuffer in pixels.
pub const FRAME_HEIGHT: usize = 240;

/// Number of pixels of the framebuffer.
pub const FRAME_PIXELS: usize = 96_000;

} // verus!

use vstd::prelude::*;
use vstd::slice::slice_to_vec;
use std::collections::{HashMap, VecDeque};
use crate::bits::{field, le_byte, take_field, take_le_byte};
use crate::pica::command::{
    decode_words, encode_header, law_replay_roundtrip, replay_words, PicaCommandBufferPacket,
    PicaCommandProcessor, PicaRegisterWrite,
};
use crate::pica::pixel::{
    blend_color, blended, combine_color, combined, convert_framebuffer_format, converted,
    hash_words, run_shader_pipeline, sample_texture, sampled, shaded, translate_shader_microcode,
    translated, word_hash,
};
use crate::pica::state::{
    BlendState, DepthStencilState, FramebufferFormat, GpuEvent, GpuModel, GpuTraceEntry,
    IndexFormat, PicaStateSnapshot, ScissorRect, ShaderOp, TextureFormat, VertexFetch, Viewport,
};
use crate::pica::{
    FRAME_HEIGHT, FRAME_PIXELS, FRAME_WIDTH, REG_ATTRIB_BASE, REG_ATTRIB_LAST, REG_BLEND_EQ,
    REG_COLOR_CLEAR, REG_DEPTH_STENCIL, REG_DRAW_BASE_VERTEX, REG_DRAW_TRIGGER,
    REG_DRAW_VERTEX_COUNT, REG_FRAMEBUFFER_FORMAT, REG_INDEX_FORMAT, REG_SCISSOR_WH,
    REG_SCISSOR_XY, REG_SHADER_CODE, REG_SHADER_CONST, REG_TEV_STAGE0, REG_TEXTURE_FORMAT,
    REG_TEXTURE_SIZE, REG_VERTEX_FORMAT, REG_VIEWPORT_WH, REG_VIEWPORT_XY,
};

verus! {

/// The low half of a register value.
pub open spec fn low_half(value: u32) -> u16 {
    (value & 0xFFFF) as u16
}

/// The high half of a register value.
pub open spec fn high_half(value: u32) -> u16 {
    field(value, 16, 0xFFFF) as u16
}

/// The mask with only attribute `index` set.
pub open spec fn attribute_bit(index: u16) -> u32 {
    1u32 << (index as u32)
}

impl GpuModel {
    /// The framebuffer and the depth buffer cover the whole frame.
    pub open spec fn well_formed(self) -> bool {
        self.frame_buffer.len() == FRAME_PIXELS && self.depth_buffer.len() == FRAME_PIXELS
    }

    /// The GPU as it is created: an opaque black frame, the depth buffer at its
    /// far end, a one-texel white texture, and the default fetch layout.
    pub open spec fn initial() -> GpuModel {
        GpuModel {
            frame_buffer: Seq::new(FRAME_PIXELS as nat, |i: int| 0xFF00_0000u32),
            depth_buffer: Seq::new(FRAME_PIXELS as nat, |i: int| u16::MAX),
            register_file: Map::empty(),
            fifo: Seq::empty(),
            attribute_mask: 0,
            index_format: IndexFormat::U16,
            vertex_fetch: VertexFetch {
                stride_words: 3,
                color_offset_words: 1,
                texcoord_offset_words: 2,
            },
            viewport: Viewport { x: 0, y: 0, w: 400, h: 240 },
            scissor: ScissorRect { x: 0, y: 0, w: 400, h: 240 },
            depth_stencil: DepthStencilState {
                depth_test_enable: false,
                depth_write_enable: false,
                stencil_enable: false,
            },
            blend: BlendState { equation_rgb: 0, equation_alpha: 0 },
            texture_format: TextureFormat::Rgba8,
            framebuffer_format: FramebufferFormat::Rgba8,
            texture_size: (1, 1),
            texture_data: seq![0xFFu8, 0xFFu8, 0xFFu8, 0xFFu8],
            shader_microcode: Seq::empty(),
            shader_constant: 0,
            translated_shader: Seq::empty(),
            tev_stage0: 0,
            vertex_stream: Seq::empty(),
            index_stream: Seq::empty(),
            draw_base_vertex: 0,
            draw_vertex_count: 0,
            trace: Seq::empty(),
            presents: 0,
            events: Seq::empty(),
        }
    }

    /// A colour after the translated shader and the conversion to the framebuffer
    /// format.
    pub open spec fn resolved(self, color: u32) -> u32 {
        converted(
            self.framebuffer_format,
            shaded(
                self.translated_shader,
                self.shader_constant,
                color,
                self.translated_shader.len() as int,
            ),
        )
    }

    /// The GPU after a colour clear: every pixel takes the resolved colour and the
    /// depth buffer is reset to its far end.
    pub open spec fn cleared(self, color: u32) -> GpuModel {
        GpuModel {
            frame_buffer: Seq::new(FRAME_PIXELS as nat, |i: int| self.resolved(color)),
            depth_buffer: Seq::new(FRAME_PIXELS as nat, |i: int| u16::MAX),
            ..self
        }
    }

    /// Position of vertex `v` in the vertex stream.
    pub open spec fn vertex_position(self, v: u16) -> int {
        v * if self.vertex_fetch.stride_words == 0 {
            1int
        } else {
            self.vertex_fetch.stride_words as int
        }
    }

    /// The word of a vertex at `offset` words from its position, or `fallback`
    /// where the stream ends before it.
    pub open spec fn vertex_word(self, v: u16, offset: u8, fallback: u32) -> u32 {
        if self.vertex_position(v) + offset < self.vertex_stream.len() {
            self.vertex_stream[self.vertex_position(v) + offset]
        } else {
            fallback
        }
    }

    /// The colour of vertex `v` before blending: its colour combined with the
    /// sampled texel, shaded and converted.
    pub open spec fn vertex_color(self, v: u16) -> u32 {
        self.resolved(
            combined(
                self.tev_stage0,
                self.vertex_word(v, self.vertex_fetch.color_offset_words, 0xFFFF_FFFF),
                sampled(
                    self.texture_format,
                    self.texture_size,
                    self.texture_data,
                    self.vertex_word(v, self.vertex_fetch.texcoord_offset_words, 0),
                ),
            ),
        )
    }

    /// Index of the pixel at `(x, y)`, both clamped to the frame.
    pub open spec fn pixel_index(x: u16, y: u16) -> int {
        (if y as int > FRAME_HEIGHT - 1 {
            FRAME_HEIGHT - 1
        } else {
            y as int
        }) * FRAME_WIDTH + (if x as int > FRAME_WIDTH - 1 {
            FRAME_WIDTH - 1
        } else {
            x as int
        })
    }

    /// The GPU after vertex `v` was drawn as a point. A vertex beyond the stream,
    /// outside the viewport or the scissor rectangle, or behind the stored depth
    /// while the depth test is on, draws nothing.
    #[verifier::opaque]
    pub open spec fn vertex_drawn(self, v: u16) -> GpuModel {
        let pos = self.vertex_position(v);
        if pos >= self.vertex_stream.len() {
            self
        } else {
            let xy = self.vertex_stream[pos];
            let x = low_half(xy);
            let y = high_half(xy);
            let idx = Self::pixel_index(x, y);
            let depth = field(xy, 8, 0xFFFF) as u16;
            if !(ScissorRect {
                x: self.viewport.x,
                y: self.viewport.y,
                w: self.viewport.w,
                h: self.viewport.h,
            }).holds(x, y) || !self.scissor.holds(x, y) {
                self
            } else if self.depth_stencil.depth_test_enable && depth > self.depth_buffer[idx] {
                self
            } else {
                GpuModel {
                    frame_buffer: self.frame_buffer.update(
                        idx,
                        blended(self.blend, self.frame_buffer[idx], self.vertex_color(v)),
                    ),
                    depth_buffer: if self.depth_stencil.depth_write_enable {
                        self.depth_buffer.update(idx, depth)
                    } else {
                        self.depth_buffer
                    },
                    ..self
                }
            }
        }
    }

    /// The GPU after the three vertices of a triangle were drawn, in order.
    pub open spec fn triangle_drawn(self, a: u16, b: u16, c: u16) -> GpuModel {
        self.vertex_drawn(a).vertex_drawn(b).vertex_drawn(c)
    }

    /// Number of vertices that a draw call consumes: the staged count, cut to what
    /// the index stream holds from the base on.
    pub open spec fn draw_count(self) -> int {
        let rest = if self.index_stream.len() >= self.draw_base_vertex {
            self.index_stream.len() - self.draw_base_vertex
        } else {
            0
        };
        if (self.draw_vertex_count as int) < rest {
            self.draw_vertex_count as int
        } else {
            rest
        }
    }

    /// The GPU after the first `count` triangles of a draw call were rasterised.
    pub open spec fn triangles_drawn(self, count: int) -> GpuModel
        decreases count,
    {
        if count <= 0 {
            self
        } else {
            let base = self.draw_base_vertex + 3 * (count - 1);
            self.triangles_drawn(count - 1).triangle_drawn(
                self.index_stream[base],
                self.index_stream[base + 1],
                self.index_stream[base + 2],
            )
        }
    }

    /// The GPU after a draw call: every whole triangle is rasterised and a
    /// frame-complete event is queued.
    pub open spec fn drawn(self) -> GpuModel {
        let done = self.triangles_drawn(self.draw_count() / 3);
        GpuModel { events: done.events.push(GpuEvent::FrameComplete), ..done }
    }

    /// The state action of a register write, after the write was stored and logged.
    #[verifier::opaque]
    pub open spec fn acted(self, reg: u16, value: u32) -> GpuModel {
        if reg == REG_VIEWPORT_XY {
            GpuModel {
                viewport: Viewport { x: low_half(value), y: high_half(value), ..self.viewport },
                ..self
            }
        } else if reg == REG_VIEWPORT_WH {
            GpuModel {
                viewport: Viewport { w: low_half(value), h: high_half(value), ..self.viewport },
                ..self
            }
        } else if reg == REG_SCISSOR_XY {
            GpuModel {
                scissor: ScissorRect { x: low_half(value), y: high_half(value), ..self.scissor },
                ..self
            }
        } else if reg == REG_SCISSOR_WH {
            GpuModel {
                scissor: ScissorRect { w: low_half(value), h: high_half(value), ..self.scissor },
                ..self
            }
        } else if REG_ATTRIB_BASE <= reg <= REG_ATTRIB_LAST {
            GpuModel {
                attribute_mask: if value & 1 == 1 {
                    self.attribute_mask | attribute_bit((reg - REG_ATTRIB_BASE) as u16)
                } else {
                    self.attribute_mask & !attribute_bit((reg - REG_ATTRIB_BASE) as u16)
                },
                ..self
            }
        } else if reg == REG_INDEX_FORMAT {
            GpuModel {
                index_format: if value & 1 == 0 {
                    IndexFormat::U8
                } else {
                    IndexFormat::U16
                },
                ..self
            }
        } else if reg == REG_VERTEX_FORMAT {
            GpuModel {
                vertex_fetch: VertexFetch {
                    stride_words: field(value, 0, 0xFF) as u8,
                    color_offset_words: field(value, 8, 0xFF) as u8,
                    texcoord_offset_words: field(value, 16, 0xFF) as u8,
                },
                ..self
            }
        } else if reg == REG_DEPTH_STENCIL {
            GpuModel {
                depth_stencil: DepthStencilState {
                    depth_test_enable: value & 1 != 0,
                    depth_write_enable: value & 2 != 0,
                    stencil_enable: value & 4 != 0,
                },
                ..self
            }
        } else if reg == REG_BLEND_EQ {
            GpuModel {
                blend: BlendState {
                    equation_rgb: field(value, 0, 0xFF) as u8,
                    equation_alpha: field(value, 8, 0xFF) as u8,
                },
                ..self
            }
        } else if reg == REG_TEXTURE_SIZE {
            GpuModel { texture_size: (low_half(value), high_half(value)), ..self }
        } else if reg == REG_TEXTURE_FORMAT {
            GpuModel {
                texture_format: if value & 1 == 0 {
                    TextureFormat::Rgba8
                } else {
                    TextureFormat::Rgb565
                },
                ..self
            }
        } else if reg == REG_TEV_STAGE0 {
            GpuModel { tev_stage0: value, ..self }
        } else if reg == REG_FRAMEBUFFER_FORMAT {
            GpuModel {
                framebuffer_format: if value & 1 == 0 {
                    FramebufferFormat::Rgba8
                } else {
                    FramebufferFormat::Rgb565
                },
                ..self
            }
        } else if reg == REG_SHADER_CODE {
            GpuModel { shader_microcode: self.shader_microcode.push(value), ..self }
        } else if reg == REG_SHADER_CONST {
            GpuModel {
                shader_constant: value,
                translated_shader: Seq::new(
                    self.shader_microcode.len(),
                    |i: int| translated(self.shader_microcode[i]),
                ),
                ..self
            }
        } else if reg == REG_COLOR_CLEAR {
            self.cleared(value)
        } else if reg == REG_DRAW_BASE_VERTEX {
            GpuModel { draw_base_vertex: low_half(value), ..self }
        } else if reg == REG_DRAW_VERTEX_COUNT {
            GpuModel { draw_vertex_count: low_half(value), ..self }
        } else if reg == REG_DRAW_TRIGGER {
            if value & 1 != 0 {
                self.drawn()
            } else {
                self
            }
        } else {
            self
        }
    }

    /// The GPU after one register write: the value is stored in the register
    /// file, the write is appended to the trace, and the register's state action
    /// runs.
    pub open spec fn written(self, write: PicaRegisterWrite) -> GpuModel {
        (GpuModel {
            register_file: self.register_file.insert(write.reg, write.value),
            trace: self.trace.push(GpuTraceEntry { reg: write.reg, value: write.value }),
            ..self
        }).acted(write.reg, write.value)
    }

    /// The GPU after register writes were applied first to last.
    pub open spec fn writes_applied(self, writes: Seq<PicaRegisterWrite>) -> GpuModel
        decreases writes.len(),
    {
        if writes.len() == 0 {
            self
        } else {
            self.writes_applied(writes.drop_last()).written(writes.last())
        }
    }

    /// The GPU after a tick: the FIFO is drained and the register writes it
    /// encodes are applied in order.
    pub open spec fn ticked(self) -> GpuModel {
        (GpuModel { fifo: Seq::empty(), ..self }).writes_applied(decode_words(self.fifo))
    }

    /// Hash of the shader program: the microcode words, then the constant.
    pub open spec fn shader_hash(self) -> u64 {
        word_hash(self.shader_microcode, self.shader_microcode.len() as int) ^ (
        self.shader_constant as u64)
    }

    /// Hash of the framebuffer.
    pub open spec fn render_hash(self) -> u64 {
        word_hash(self.frame_buffer, self.frame_buffer.len() as int)
    }

    /// The framebuffer as bytes: each pixel little-endian, in order.
    pub open spec fn frame_bytes(self) -> Seq<u8> {
        Seq::new(
            4 * self.frame_buffer.len(),
            |i: int| le_byte(self.frame_buffer[i / 4], (i % 4) as u32),
        )
    }
}

/// The colour and depth planes of the frame.
struct Surface {
    color: Vec<u32>,
    depth: Vec<u16>,
}

impl Surface {
    #[verifier::type_invariant]
    spec fn inv(&self) -> bool {
        self.color@.len() == FRAME_PIXELS && self.depth@.len() == FRAME_PIXELS
    }

    fn filled(color: u32) -> (surface: Self)
        ensures
            surface.color@ == Seq::new(FRAME_PIXELS as nat, |i: int| color),
            surface.depth@ == Seq::new(FRAME_PIXELS as nat, |i: int| u16::MAX),
    {
        let colors: Vec<u32> = vec![color; FRAME_PIXELS];
        let depths: Vec<u16> = vec![u16::MAX; FRAME_PIXELS];
        assert(colors@ =~= Seq::new(FRAME_PIXELS as nat, |i: int| color));
        assert(depths@ =~= Seq::new(FRAME_PIXELS as nat, |i: int| u16::MAX));
        Surface { color: colors, depth: depths }
    }

    fn put(&mut self, idx: usize, color: u32, depth: Option<u16>)
        requires
            idx < FRAME_PIXELS,
        ensures
            final(self).color@ == old(self).color@.update(idx as int, color),
            final(self).depth@ == match depth {
                Some(d) => old(self).depth@.update(idx as int, d),
                None => old(self).depth@,
            },
    {
        proof {
            use_type_invariant(&*self);
        }
        self.color[idx] = color;
        match depth {
            Some(d) => {
                self.depth[idx] = d;
            },
            None => {},
        }
    }
}

/// Command-processor GPU: a FIFO of packets, a register file with state
/// actions, and a point rasteriser over a fixed-size frame.
pub struct PicaGpu {
    surface: Surface,
    register_file: HashMap<u16, u32>,
    fifo: VecDeque<u32>,
    cmd: PicaCommandProcessor,
    attribute_mask: u32,
    index_format: IndexFormat,
    vertex_fetch: VertexFetch,
    viewport: Viewport,
    scissor: ScissorRect,
    depth_stencil: DepthStencilState,
    blend: BlendState,
    texture_format: TextureFormat,
    framebuffer_format: FramebufferFormat,
    texture_size: (u16, u16),
    texture_data: Vec<u8>,
    shader_microcode: Vec<u32>,
    shader_constant: u32,
    translated_shader: Vec<ShaderOp>,
    tev_stage0: u32,
    vertex_stream: Vec<u32>,
    index_stream: Vec<u16>,
    draw_base_vertex: u16,
    draw_vertex_count: u16,
    trace: Vec<GpuTraceEntry>,
    presents: u64,
    events: VecDeque<GpuEvent>,
}

impl View for PicaGpu {
    type V = GpuModel;

    closed spec fn view(&self) -> GpuModel {
        GpuModel {
            frame_buffer: self.surface.color@,
            depth_buffer: self.surface.depth@,
            register_file: self.register_file@,
            fifo: self.fifo@,
            attribute_mask: self.attribute_mask,
            index_format: self.index_format,
            vertex_fetch: self.vertex_fetch,
            viewport: self.viewport,
            scissor: self.scissor,
            depth_stencil: self.depth_stencil,
            blend: self.blend,
            texture_format: self.texture_format,
            framebuffer_format: self.framebuffer_format,
            texture_size: self.texture_size,
            texture_data: self.texture_data@,
            shader_microcode: self.shader_microcode@,
            shader_constant: self.shader_constant,
            translated_shader: self.translated_shader@,
            tev_stage0: self.tev_stage0,
            vertex_stream: self.vertex_stream@,
            index_stream: self.index_stream@,
            draw_base_vertex: self.draw_base_vertex,
            draw_vertex_count: self.draw_vertex_count,
            trace: self.trace@,
            presents: self.presents,
            events: self.events@,
        }
    }
}

fn half_low(value: u32) -> (half: u16)
    ensures
        half == low_half(value),
{
    proof {
        crate::bits::lemma_mask_bound(value, 0xFFFF);
    }
    (value & 0xFFFF) as u16
}

fn half_high(value: u32) -> (half: u16)
    ensures
        half == high_half(value),
{
    take_field(value, 16, 0xFFFF) as u16
}

impl PicaGpu {
    pub const WIDTH: usize = 400;

    pub const HEIGHT: usize = 240;

    pub fn new() -> (gpu: Self)
        ensures
            gpu@ == GpuModel::initial(),
    {
        let mut texture: Vec<u8> = Vec::new();
        texture.push(0xFF);
        texture.push(0xFF);
        texture.push(0xFF);
        texture.push(0xFF);
        let gpu = PicaGpu {
            surface: Surface::filled(0xFF00_0000),
            register_file: HashMap::new(),
            fifo: VecDeque::new(),
            cmd: PicaCommandProcessor,
            attribute_mask: 0,
            index_format: IndexFormat::U16,
            vertex_fetch: VertexFetch {
                stride_words: 3,
                color_offset_words: 1,
                texcoord_offset_words: 2,
            },
            viewport: Viewport { x: 0, y: 0, w: 400, h: 240 },
            scissor: ScissorRect { x: 0, y: 0, w: 400, h: 240 },
            depth_stencil: DepthStencilState {
                depth_test_enable: false,
                depth_write_enable: false,
                stencil_enable: false,
            },
            blend: BlendState { equation_rgb: 0, equation_alpha: 0 },
            texture_format: TextureFormat::Rgba8,
            framebuffer_format: FramebufferFormat::Rgba8,
            texture_size: (1, 1),
            texture_data: texture,
            shader_microcode: Vec::new(),
            shader_constant: 0,
            translated_shader: Vec::new(),
            tev_stage0: 0,
            vertex_stream: Vec::new(),
            index_stream: Vec::new(),
            draw_base_vertex: 0,
            draw_vertex_count: 0,
            trace: Vec::new(),
            presents: 0,
            events: VecDeque::new(),
        };
        assert(gpu@.texture_data =~= seq![0xFFu8, 0xFFu8, 0xFFu8, 0xFFu8]);
        gpu
    }

    /// Replaces the vertex stream.
    pub fn load_vertex_stream(&mut self, words: &[u32])
        ensures
            final(self)@ == (GpuModel { vertex_stream: words@, ..old(self)@ }),
    {
        self.vertex_stream = slice_to_vec(words);
    }

    /// Replaces the index stream.
    pub fn load_index_stream_u16(&mut self, indices: &[u16])
        ensures
            final(self)@ == (GpuModel { index_stream: indices@, ..old(self)@ }),
    {
        self.index_stream = slice_to_vec(indices);
    }

    /// Binds an RGBA8 texture; a dimension of zero counts as one.
    pub fn load_texture_rgba8(&mut self, width: u16, height: u16, texels: &[u8])
        ensures
            final(self)@ == (GpuModel {
                texture_size: (
                    if width == 0 {
                        1u16
                    } else {
                        width
                    },
                    if height == 0 {
                        1u16
                    } else {
                        height
                    },
                ),
                texture_data: texels@,
                texture_format: TextureFormat::Rgba8,
                ..old(self)@
            }),
    {
        self.texture_size = (
            if width == 0 {
                1
            } else {
                width
            },
            if height == 0 {
                1
            } else {
                height
            },
        );
        self.texture_data = slice_to_vec(texels);
        self.texture_format = TextureFormat::Rgba8;
    }

    /// Appends words to the FIFO.
    pub fn enqueue_gsp_fifo_words(&mut self, words: &[u32])
        ensures
            final(self)@ == (GpuModel { fifo: old(self)@.fifo + words@, ..old(self)@ }),
    {
        let mut i: usize = 0;
        while i < words.len()
            invariant
                i <= words@.len(),
                self@ == (GpuModel {
                    fifo: old(self)@.fifo + words@.subrange(0, i as int),
                    ..old(self)@
                }),
            decreases words@.len() - i,
        {
            self.fifo.push_back(words[i]);
            assert(self@.fifo =~= old(self)@.fifo + words@.subrange(0, i + 1));
            i += 1;
        }
        assert(words@.subrange(0, words@.len() as int) =~= words@);
        assert(self@.fifo =~= old(self)@.fifo + words@);
    }

    /// Appends a packet that writes `value` to `reg`.
    pub fn enqueue_register_write(&mut self, reg: u16, value: u32)
        ensures
            final(self)@ == (GpuModel {
                fifo: old(self)@.fifo.push(encode_header(reg, 1, false)).push(value),
                ..old(self)@
            }),
    {
        let header = PicaCommandBufferPacket::encode(reg, 1, false);
        self.fifo.push_back(header);
        self.fifo.push_back(value);
    }

    /// Drains the FIFO and applies the register writes it encodes.
    pub fn tick(&mut self, _cycle: u64)
        ensures
            final(self)@ == old(self)@.ticked(),
    {
        if self.fifo.len() == 0 {
            assert(self@.fifo =~= Seq::<u32>::empty());
            assert(decode_words(self@.fifo) =~= Seq::<PicaRegisterWrite>::empty());
            return ;
        }
        let ghost queued = self@.fifo;
        let mut words: Vec<u32> = Vec::new();
        while self.fifo.len() > 0
            invariant
                words@ + self@.fifo == queued,
                self@ == (GpuModel { fifo: self@.fifo, ..old(self)@ }),
            decreases self@.fifo.len(),
        {
            let ghost rest = self@.fifo;
            match self.fifo.pop_front() {
                Some(word) => {
                    words.push(word);
                    assert(words@ + self@.fifo =~= queued) by {
                        assert(rest =~= seq![word] + self@.fifo);
                    }
                },
                None => {},
            }
        }
        assert(self@.fifo =~= Seq::<u32>::empty());
        assert(words@ =~= queued);
        let writes = self.cmd.decode_command_words(words.as_slice());
        let ghost start = self@;
        let mut i: usize = 0;
        while i < writes.len()
            invariant
                i <= writes@.len(),
                self@ == start.writes_applied(writes@.subrange(0, i as int)),
            decreases writes@.len() - i,
        {
            assert(writes@.subrange(0, i + 1).drop_last() =~= writes@.subrange(0, i as int));
            self.apply_register_write(writes[i]);
            i += 1;
        }
        assert(writes@.subrange(0, writes@.len() as int) =~= writes@);
    }

    /// Hands out the queued events and leaves the queue empty.
    pub fn take_events(&mut self) -> (events: Vec<GpuEvent>)
        ensures
            events@ == old(self)@.events,
            final(self)@ == (GpuModel { events: Seq::empty(), ..old(self)@ }),
    {
        let ghost queued = self@.events;
        let mut events: Vec<GpuEvent> = Vec::new();
        while self.events.len() > 0
            invariant
                events@ + self@.events == queued,
                self@ == (GpuModel { events: self@.events, ..old(self)@ }),
            decreases self@.events.len(),
        {
            let ghost rest = self@.events;
            match self.events.pop_front() {
                Some(event) => {
                    events.push(event);
                    assert(events@ + self@.events =~= queued) by {
                        assert(rest =~= seq![event] + self@.events);
                    }
                },
                None => {},
            }
        }
        assert(self@.events =~= Seq::<GpuEvent>::empty());
        assert(events@ =~= queued);
        events
    }

    /// Counts `frame_count` more presented frames, saturating.
    pub fn present(&mut self, frame_count: u64)
        ensures
            final(self)@ == (GpuModel {
                presents: if old(self)@.presents + frame_count > u64::MAX {
                    u64::MAX
                } else {
                    (old(self)@.presents + frame_count) as u64
                },
                ..old(self)@
            }),
    {
        self.presents = self.presents.saturating_add(frame_count);
    }

    /// Number of frames presented so far.
    pub fn presents(&self) -> (count: u64)
        ensures
            count == self@.presents,
    {
        self.presents
    }

    fn apply_register_write(&mut self, write: PicaRegisterWrite)
        ensures
            final(self)@ == old(self)@.written(write),
    {
        reveal(GpuModel::acted);
        self.register_file.insert(write.reg, write.value);
        self.trace.push(GpuTraceEntry { reg: write.reg, value: write.value });
        let reg = write.reg;
        let value = write.value;
        if reg == REG_VIEWPORT_XY {
            self.viewport.x = half_low(value);
            self.viewport.y = half_high(value);
        } else if reg == REG_VIEWPORT_WH {
            self.viewport.w = half_low(value);
            self.viewport.h = half_high(value);
        } else if reg == REG_SCISSOR_XY {
            self.scissor.x = half_low(value);
            self.scissor.y = half_high(value);
        } else if reg == REG_SCISSOR_WH {
            self.scissor.w = half_low(value);
            self.scissor.h = half_high(value);
        } else if REG_ATTRIB_BASE <= reg && reg <= REG_ATTRIB_LAST {
            let bit = 1u32 << ((reg - REG_ATTRIB_BASE) as u32);
            if value & 1 == 1 {
                self.attribute_mask = self.attribute_mask | bit;
            } else {
                self.attribute_mask = self.attribute_mask & !bit;
            }
        } else if reg == REG_INDEX_FORMAT {
            self.index_format = if value & 1 == 0 {
                IndexFormat::U8
            } else {
                IndexFormat::U16
            };
        } else if reg == REG_VERTEX_FORMAT {
            self.vertex_fetch = VertexFetch {
                stride_words: take_field(value, 0, 0xFF) as u8,
                color_offset_words: take_field(value, 8, 0xFF) as u8,
                texcoord_offset_words: take_field(value, 16, 0xFF) as u8,
            };
        } else if reg == REG_DEPTH_STENCIL {
            self.depth_stencil = DepthStencilState {
                depth_test_enable: value & 1 != 0,
                depth_write_enable: value & 2 != 0,
                stencil_enable: value & 4 != 0,
            };
        } else if reg == REG_BLEND_EQ {
            self.blend = BlendState {
                equation_rgb: take_field(value, 0, 0xFF) as u8,
                equation_alpha: take_field(value, 8, 0xFF) as u8,
            };
        } else if reg == REG_TEXTURE_SIZE {
            self.texture_size = (half_low(value), half_high(value));
        } else if reg == REG_TEXTURE_FORMAT {
            self.texture_format = if value & 1 == 0 {
                TextureFormat::Rgba8
            } else {
                TextureFormat::Rgb565
            };
        } else if reg == REG_TEV_STAGE0 {
            self.tev_stage0 = value;
        } else if reg == REG_FRAMEBUFFER_FORMAT {
            self.framebuffer_format = if value & 1 == 0 {
                FramebufferFormat::Rgba8
            } else {
                FramebufferFormat::Rgb565
            };
        } else if reg == REG_SHADER_CODE {
            self.shader_microcode.push(value);
        } else if reg == REG_SHADER_CONST {
            self.shader_constant = value;
            self.translated_shader = translate_shader_microcode(&self.shader_microcode);
        } else if reg == REG_COLOR_CLEAR {
            self.clear_color(value);
        } else if reg == REG_DRAW_BASE_VERTEX {
            self.draw_base_vertex = half_low(value);
        } else if reg == REG_DRAW_VERTEX_COUNT {
            self.draw_vertex_count = half_low(value);
        } else if reg == REG_DRAW_TRIGGER {
            if value & 1 != 0 {
                self.execute_draw_call();
            }
        }
    }

    fn resolve(&self, color: u32) -> (out: u32)
        ensures
            out == self@.resolved(color),
    {
        convert_framebuffer_format(
            self.framebuffer_format,
            run_shader_pipeline(&self.translated_shader, self.shader_constant, color),
        )
    }

    fn clear_color(&mut self, color: u32)
        ensures
            final(self)@ == old(self)@.cleared(color),
    {
        let resolved = self.resolve(color);
        self.surface = Surface::filled(resolved);
        assert(self@.frame_buffer =~= old(self)@.cleared(color).frame_buffer);
    }

    fn execute_draw_call(&mut self)
        ensures
            final(self)@ == old(self)@.drawn(),
    {
        let base = self.draw_base_vertex as usize;
        let rest = if self.index_stream.len() >= base {
            self.index_stream.len() - base
        } else {
            0
        };
        let count = if (self.draw_vertex_count as usize) < rest {
            self.draw_vertex_count as usize
        } else {
            rest
        };
        let triangles = count / 3;
        let ghost start = self@;
        let total = self.index_stream.len();
        let mut k: usize = 0;
        while k < triangles
            invariant
                k <= triangles,
                total == self.index_stream@.len(),
                triangles * 3 <= count,
                triangles > 0 ==> base + count <= self.index_stream@.len(),
                base == start.draw_base_vertex,
                self@ == start.triangles_drawn(k as int),
                self@.index_stream == start.index_stream,
                self@.draw_base_vertex == start.draw_base_vertex,
            decreases triangles - k,
        {
            let first = base + 3 * k;
            let a = self.index_stream[first];
            let b = self.index_stream[first + 1];
            let c = self.index_stream[first + 2];
            proof {
                lemma_triangles_keep_streams(start, k as int);
            }
            self.rasterize_triangle([a, b, c]);
            k += 1;
            proof {
                lemma_triangles_keep_streams(start, k as int);
            }
        }
        self.events.push_back(GpuEvent::FrameComplete);
    }

    /// Rasterises a triangle: each of its three vertices is drawn as a point.
    fn rasterize_triangle(&mut self, tri: [u16; 3])
        ensures
            final(self)@ == old(self)@.triangle_drawn(tri@[0], tri@[1], tri@[2]),
    {
        self.draw_vertex(tri[0]);
        self.draw_vertex(tri[1]);
        self.draw_vertex(tri[2]);
    }

    fn draw_vertex(&mut self, v: u16)
        ensures
            final(self)@ == old(self)@.vertex_drawn(v),
    {
        reveal(GpuModel::vertex_drawn);
        proof {
            use_type_invariant(&self.surface);
        }
        let stride: usize = if self.vertex_fetch.stride_words == 0 {
            1
        } else {
            self.vertex_fetch.stride_words as usize
        };
        assert(v * stride <= 0xFFFF * 0xFF) by (nonlinear_arith)
            requires
                v <= 0xFFFF,
                stride <= 0xFF,
        ;
        let pos = v as usize * stride;
        if pos >= self.vertex_stream.len() {
            return ;
        }
        let xy = self.vertex_stream[pos];
        let x = half_low(xy);
        let y = half_high(xy);
        if !ScissorRect::from(self.viewport).contains(x, y) || !self.scissor.contains(x, y) {
            return ;
        }
        let color_at = pos + self.vertex_fetch.color_offset_words as usize;
        let color_word = if color_at < self.vertex_stream.len() {
            self.vertex_stream[color_at]
        } else {
            0xFFFF_FFFF
        };
        let tex_at = pos + self.vertex_fetch.texcoord_offset_words as usize;
        let tex_word = if tex_at < self.vertex_stream.len() {
            self.vertex_stream[tex_at]
        } else {
            0
        };
        let tex_color = sample_texture(
            self.texture_format,
            self.texture_size,
            &self.texture_data,
            tex_word,
        );
        let shaded = self.resolve(combine_color(self.tev_stage0, color_word, tex_color));
        let xi: usize = if x as usize > FRAME_WIDTH - 1 {
            FRAME_WIDTH - 1
        } else {
            x as usize
        };
        let yi: usize = if y as usize > FRAME_HEIGHT - 1 {
            FRAME_HEIGHT - 1
        } else {
            y as usize
        };
        let idx = yi * FRAME_WIDTH + xi;
        let depth = take_field(xy, 8, 0xFFFF) as u16;
        if self.depth_stencil.depth_test_enable && depth > self.surface.depth[idx] {
            return ;
        }
        let color = blend_color(self.blend, self.surface.color[idx], shaded);
        self.surface.put(
            idx,
            color,
            if self.depth_stencil.depth_write_enable {
                Some(depth)
            } else {
                None
            },
        );
    }

    /// The framebuffer as little-endian RGBA bytes.
    pub fn frame_u8(&self) -> (bytes: Vec<u8>)
        ensures
            bytes@ == self@.frame_bytes(),
            bytes@.len() == 4 * FRAME_PIXELS,
            self@.well_formed(),
    {
        proof {
            use_type_invariant(&self.surface);
        }
        let mut bytes: Vec<u8> = Vec::new();
        let mut i: usize = 0;
        while i < self.surface.color.len()
            invariant
                i <= self.surface.color@.len(),
                self.surface.color@.len() == FRAME_PIXELS,
                bytes@ == Seq::new(
                    (4 * i) as nat,
                    |k: int| le_byte(self.surface.color@[k / 4], (k % 4) as u32),
                ),
            decreases self.surface.color@.len() - i,
        {
            let px = self.surface.color[i];
            bytes.push(take_le_byte(px, 0));
            bytes.push(take_le_byte(px, 1));
            bytes.push(take_le_byte(px, 2));
            bytes.push(take_le_byte(px, 3));
            assert(bytes@ =~= Seq::new(
                (4 * (i + 1)) as nat,
                |k: int| le_byte(self.surface.color@[k / 4], (k % 4) as u32),
            ));
            i += 1;
        }
        bytes
    }

    pub fn state_snapshot(&self) -> (snapshot: PicaStateSnapshot)
        ensures
            snapshot == (PicaStateSnapshot {
                attribute_mask: self@.attribute_mask,
                index_format: self@.index_format,
                viewport: self@.viewport,
                scissor: self@.scissor,
                depth_stencil: self@.depth_stencil,
                blend: self@.blend,
                shader_program_hash: self@.shader_hash(),
                trace_len: self@.trace.len() as usize,
            }),
    {
        PicaStateSnapshot {
            attribute_mask: self.attribute_mask,
            index_format: self.index_format,
            viewport: self.viewport,
            scissor: self.scissor,
            depth_stencil: self.depth_stencil,
            blend: self.blend,
            shader_program_hash: self.current_shader_hash(),
            trace_len: self.trace.len(),
        }
    }

    fn current_shader_hash(&self) -> (hash: u64)
        ensures
            hash == self@.shader_hash(),
    {
        hash_words(&self.shader_microcode) ^ (self.shader_constant as u64)
    }

    /// The register writes applied so far, oldest first.
    pub fn trace(&self) -> (trace: &[GpuTraceEntry])
        ensures
            trace@ == self@.trace,
    {
        self.trace.as_slice()
    }

    /// Hash of the framebuffer.
    pub fn deterministic_render_hash(&self) -> (hash: u64)
        ensures
            hash == self@.render_hash(),
    {
        hash_words(&self.surface.color)
    }
}

impl Default for PicaGpu {
    fn default() -> (gpu: Self)
        ensures
            gpu@ == GpuModel::initial(),
    {
        PicaGpu::new()
    }
}

/// Drawing a vertex changes only the two planes of the frame.
pub proof fn lemma_vertex_keeps_state(g: GpuModel, v: u16)
    ensures
        g.vertex_drawn(v) == (GpuModel {
            frame_buffer: g.vertex_drawn(v).frame_buffer,
            depth_buffer: g.vertex_drawn(v).depth_buffer,
            ..g
        }),
{
    reveal(GpuModel::vertex_drawn);
}

/// Rasterising triangles changes only the two planes of the frame.
pub proof fn lemma_triangles_keep_streams(g: GpuModel, count: int)
    ensures
        g.triangles_drawn(count) == (GpuModel {
            frame_buffer: g.triangles_drawn(count).frame_buffer,
            depth_buffer: g.triangles_drawn(count).depth_buffer,
            ..g
        }),
    decreases count,
{
    if count > 0 {
        lemma_triangles_keep_streams(g, count - 1);
        let base = g.draw_base_vertex + 3 * (count - 1);
        let g0 = g.triangles_drawn(count - 1);
        let g1 = g0.vertex_drawn(g.index_stream[base]);
        let g2 = g1.vertex_drawn(g.index_stream[base + 1]);
        lemma_vertex_keeps_state(g0, g.index_stream[base]);
        lemma_vertex_keeps_state(g1, g.index_stream[base + 1]);
        lemma_vertex_keeps_state(g2, g.index_stream[base + 2]);
    }
}

/// The trace entries that register writes are logged as.
pub open spec fn logged(writes: Seq<PicaRegisterWrite>) -> Seq<GpuTraceEntry> {
    Seq::new(writes.len(), |i: int| GpuTraceEntry { reg: writes[i].reg, value: writes[i].value })
}

/// The register writes that trace entries stand for.
pub open spec fn recorded(trace: Seq<GpuTraceEntry>) -> Seq<PicaRegisterWrite> {
    Seq::new(trace.len(), |i: int| PicaRegisterWrite { reg: trace[i].reg, value: trace[i].value })
}

/// A register write appends exactly one entry to the trace and nothing else
/// touches the trace.
pub proof fn lemma_written_trace(g: GpuModel, write: PicaRegisterWrite)
    ensures
        g.written(write).trace == g.trace.push(
            GpuTraceEntry { reg: write.reg, value: write.value },
        ),
{
    reveal(GpuModel::acted);
    let stored = GpuModel {
        register_file: g.register_file.insert(write.reg, write.value),
        trace: g.trace.push(GpuTraceEntry { reg: write.reg, value: write.value }),
        ..g
    };
    lemma_triangles_keep_streams(stored, stored.draw_count() / 3);
}

/// The trace is append-only: applying register writes appends their log, in
/// order, to the trace.
pub proof fn law_trace_is_append_only(g: GpuModel, writes: Seq<PicaRegisterWrite>)
    ensures
        g.writes_applied(writes).trace == g.trace + logged(writes),
    decreases writes.len(),
{
    if writes.len() > 0 {
        law_trace_is_append_only(g, writes.drop_last());
        lemma_written_trace(g.writes_applied(writes.drop_last()), writes.last());
        assert(g.writes_applied(writes).trace =~= g.trace + logged(writes));
    } else {
        assert(g.trace + logged(writes) =~= g.trace);
    }
}

/// Replaying the register writes that a tick recorded, one packet per write, on
/// a GPU in the state the tick started from, ends in the same state: the same
/// framebuffer, hence the same framebuffer hash, and the same queued events.
pub proof fn law_trace_replay_is_deterministic(g: GpuModel, words: Seq<u32>)
    ensures
        ({
            let played = (GpuModel { fifo: words, ..g }).ticked();
            let recording = played.trace.subrange(g.trace.len() as int, played.trace.len() as int);
            let replayed = (GpuModel { fifo: replay_words(recorded(recording)), ..g }).ticked();
            &&& recording == logged(decode_words(words))
            &&& replayed == played
            &&& replayed.render_hash() == played.render_hash()
        }),
{
    let start = GpuModel { fifo: Seq::empty(), ..g };
    let writes = decode_words(words);
    let played = (GpuModel { fifo: words, ..g }).ticked();
    assert(played == start.writes_applied(writes));
    law_trace_is_append_only(start, writes);
    let recording = played.trace.subrange(g.trace.len() as int, played.trace.len() as int);
    assert(recording =~= logged(writes));
    assert(recorded(recording) =~= writes);
    law_replay_roundtrip(writes);
}

} // verus!

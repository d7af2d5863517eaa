use emu3ds::diagnostics::{BootCheckpoint, BootCheckpointProfiler, RingBuffer};
use emu3ds::dma::{DmaEngine, DmaTransfer, DmaTransferKind};
use emu3ds::dsp::Dsp;
use emu3ds::memory::Memory;
use emu3ds::pica::pixel::{
    blend_color, combine_color, convert_framebuffer_format, pack_rgb565, sample_texture,
    unpack_rgb565,
};
use emu3ds::pica::{
    BlendState, FramebufferFormat, GpuEvent, IndexFormat, PicaCommandBufferPacket,
    PicaCommandProcessor, PicaGpu, PicaRegisterWrite, ScissorRect, TextureFormat, Viewport,
    REG_ATTRIB_BASE, REG_BLEND_EQ, REG_COLOR_CLEAR, REG_DEPTH_STENCIL, REG_DRAW_BASE_VERTEX,
    REG_DRAW_TRIGGER, REG_DRAW_VERTEX_COUNT, REG_FRAMEBUFFER_FORMAT, REG_INDEX_FORMAT,
    REG_SCISSOR_WH, REG_SCISSOR_XY, REG_SHADER_CODE, REG_SHADER_CONST, REG_VERTEX_FORMAT,
    REG_VIEWPORT_XY,
};

fn pixel(frame: &[u8], x: usize, y: usize) -> u32 {
    let at = (y * PicaGpu::WIDTH + x) * 4;
    u32::from_le_bytes([frame[at], frame[at + 1], frame[at + 2], frame[at + 3]])
}

#[test]
fn packet_header_is_register_count_and_sequential_flag() {
    assert_eq!(PicaCommandBufferPacket::encode(0x0206, 0x7F, true), 0x0206 | (0x7F << 16) | (1 << 23));
    assert_eq!(PicaCommandBufferPacket::encode(0x0041, 1, false), 0x0001_0041);
    assert_eq!(
        PicaCommandBufferPacket::decode(0xFF83_0100),
        PicaCommandBufferPacket { reg: 0x0100, count: 3, sequential: true }
    );
    let packet = PicaCommandBufferPacket::decode(PicaCommandBufferPacket::encode(0xFFFF, 0x40, false));
    assert_eq!(packet, PicaCommandBufferPacket { reg: 0xFFFF, count: 0x40, sequential: false });
}

#[test]
fn decoder_handles_zero_counts_repeats_wraps_and_truncation() {
    let cmd = PicaCommandProcessor;
    let write = |reg: u16, value: u32| PicaRegisterWrite { reg, value };
    // A count of zero still takes one payload word.
    assert_eq!(cmd.decode_command_words(&[0x0000_0130, 9]), vec![write(0x0130, 9)]);
    // Without the sequential flag every payload word goes to the same register.
    assert_eq!(
        cmd.decode_command_words(&[PicaCommandBufferPacket::encode(0x0300, 2, false), 1, 2]),
        vec![write(0x0300, 1), write(0x0300, 2)]
    );
    // Sequential registers wrap at 16 bits.
    assert_eq!(
        cmd.decode_command_words(&[PicaCommandBufferPacket::encode(0xFFFF, 2, true), 1, 2]),
        vec![write(0xFFFF, 1), write(0x0000, 2)]
    );
    // A payload cut short yields the writes that are there.
    assert_eq!(
        cmd.decode_command_words(&[PicaCommandBufferPacket::encode(0x0100, 3, true), 1]),
        vec![write(0x0100, 1)]
    );
    assert_eq!(cmd.decode_command_words(&[PicaCommandBufferPacket::encode(0x0100, 3, true)]), vec![]);
    assert_eq!(cmd.decode_command_words(&[]), vec![]);
}

#[test]
fn register_writes_update_the_state_and_the_trace() {
    let mut gpu = PicaGpu::new();
    let initial = gpu.state_snapshot();
    assert_eq!(initial.viewport, Viewport::default());
    assert_eq!(initial.scissor, ScissorRect::default());
    assert_eq!(initial.index_format, IndexFormat::U16);
    assert_eq!(initial.shader_program_hash, 0xcbf2_9ce4_8422_2325);
    gpu.enqueue_register_write(REG_VIEWPORT_XY, (7 << 16) | 5);
    gpu.enqueue_register_write(REG_SCISSOR_XY, (2 << 16) | 1);
    gpu.enqueue_register_write(REG_SCISSOR_WH, (20 << 16) | 10);
    gpu.enqueue_register_write(REG_ATTRIB_BASE + 3, 1);
    gpu.enqueue_register_write(REG_ATTRIB_BASE + 7, 3);
    gpu.enqueue_register_write(REG_ATTRIB_BASE + 3, 2);
    gpu.enqueue_register_write(REG_INDEX_FORMAT, 0);
    gpu.enqueue_register_write(REG_DEPTH_STENCIL, 0b101);
    gpu.enqueue_register_write(REG_BLEND_EQ, 0x0302);
    gpu.enqueue_register_write(REG_SHADER_CODE, 4);
    gpu.enqueue_register_write(REG_SHADER_CONST, 0xFF);
    gpu.enqueue_register_write(REG_DRAW_TRIGGER, 2);
    assert_eq!(gpu.state_snapshot(), initial);
    gpu.tick(0);
    gpu.tick(1);
    let state = gpu.state_snapshot();
    assert_eq!(state.viewport, Viewport { x: 5, y: 7, w: 400, h: 240 });
    assert_eq!(state.scissor, ScissorRect { x: 1, y: 2, w: 10, h: 20 });
    assert_eq!(state.attribute_mask, 1 << 7);
    assert_eq!(state.index_format, IndexFormat::U8);
    assert!(state.depth_stencil.depth_test_enable);
    assert!(!state.depth_stencil.depth_write_enable);
    assert!(state.depth_stencil.stencil_enable);
    assert_eq!(state.blend, BlendState { equation_rgb: 2, equation_alpha: 3 });
    assert_eq!(state.trace_len, 12);
    assert_eq!(
        state.shader_program_hash,
        (0xcbf2_9ce4_8422_2325u64 ^ 4).wrapping_mul(0x1000_0000_01B3) ^ 0xFF
    );
    assert_eq!(gpu.trace()[0].reg, REG_VIEWPORT_XY);
    assert_eq!(gpu.trace()[11].value, 2);
    assert!(gpu.take_events().is_empty());
    assert!(ScissorRect::from(state.viewport).contains(5, 7));
    assert!(!ScissorRect::from(state.viewport).contains(4, 7));
    assert!(ScissorRect { x: 0xFFF0, y: 0, w: 0x100, h: 1 }.contains(0xFFFE, 0));
    assert!(!ScissorRect { x: 0xFFF0, y: 0, w: 0x100, h: 1 }.contains(0xFFFF, 0));
}

#[test]
fn clear_and_draw_write_the_expected_pixels() {
    let mut gpu = PicaGpu::new();
    assert_eq!(pixel(&gpu.frame_u8(), 0, 0), 0xFF00_0000);
    assert_eq!(gpu.frame_u8().len(), 400 * 240 * 4);
    gpu.load_vertex_stream(&[
        (10 << 16) | 10, 0x1122_3344, 0,
        (20 << 16) | 500, 0x5566_7788, 0,
        (30 << 16) | 30, 0x99AA_BBCC, 0,
        (40 << 16) | 40, 0xFFFF_FFFF, 0,
    ]);
    gpu.load_index_stream_u16(&[0, 1, 2, 3]);
    gpu.enqueue_register_write(REG_COLOR_CLEAR, 0x0102_0304);
    gpu.enqueue_register_write(REG_DRAW_BASE_VERTEX, 0);
    gpu.enqueue_register_write(REG_DRAW_VERTEX_COUNT, 4);
    gpu.enqueue_register_write(REG_DRAW_TRIGGER, 1);
    gpu.tick(0);
    let frame = gpu.frame_u8();
    assert_eq!(&frame[0..4], &[0x04, 0x03, 0x02, 0x01]);
    assert_eq!(pixel(&frame, 10, 10), 0x1122_3344);
    // The second vertex lies outside the viewport, the fourth is in no whole triangle.
    assert_eq!(pixel(&frame, 399, 20), 0x0102_0304);
    assert_eq!(pixel(&frame, 30, 30), 0x99AA_BBCC);
    assert_eq!(pixel(&frame, 40, 40), 0x0102_0304);
    assert_eq!(gpu.take_events(), vec![GpuEvent::FrameComplete]);
    assert!(gpu.take_events().is_empty());
    gpu.present(2);
    gpu.present(u64::MAX);
    assert_eq!(gpu.presents(), u64::MAX);
}

#[test]
fn depth_test_blend_shader_and_format_are_applied_per_vertex() {
    let mut gpu = PicaGpu::new();
    // x = 3, y = 0; the depth is bits 8..24 of the position word: 0x0000 for y = 0, x < 256.
    gpu.load_vertex_stream(&[3, 0x0000_00FF, 2, 0x0005_0103, 4, 6]);
    gpu.load_index_stream_u16(&[0, 0, 0]);
    gpu.enqueue_register_write(REG_VERTEX_FORMAT, 0x0000_0100);
    gpu.enqueue_register_write(REG_BLEND_EQ, 1);
    gpu.enqueue_register_write(REG_DRAW_VERTEX_COUNT, 3);
    gpu.enqueue_register_write(REG_DRAW_TRIGGER, 1);
    gpu.tick(0);
    // Stride 0 counts as 1, colour at offset 1, texture coordinate at offset 0.
    // Three draws at (3, 0), each the mean with the pixel before: FF -> 7F -> BF -> DF in red.
    assert_eq!(pixel(&gpu.frame_u8(), 3, 0), 0x0000_00DF);
    let mut gpu = PicaGpu::new();
    gpu.load_vertex_stream(&[(1 << 16) | 0x0201, 0xFF10_2030, 0]);
    gpu.load_index_stream_u16(&[0, 0, 0]);
    gpu.enqueue_register_write(REG_DEPTH_STENCIL, 0b11);
    gpu.enqueue_register_write(REG_SHADER_CODE, 1);
    gpu.enqueue_register_write(REG_SHADER_CODE, 2);
    gpu.enqueue_register_write(REG_SHADER_CONST, 0x0000_00FF);
    gpu.enqueue_register_write(REG_FRAMEBUFFER_FORMAT, 1);
    gpu.enqueue_register_write(REG_DRAW_VERTEX_COUNT, 3);
    gpu.enqueue_register_write(REG_DRAW_TRIGGER, 1);
    gpu.tick(0);
    // x = 0x201 is outside the viewport: nothing is drawn.
    assert_eq!(pixel(&gpu.frame_u8(), 399, 1), 0xFF00_0000);
    let mut gpu = PicaGpu::new();
    gpu.load_vertex_stream(&[(1 << 16) | 2, 0xFF10_2030, 0]);
    gpu.load_index_stream_u16(&[9, 0, 0, 0]);
    gpu.enqueue_register_write(REG_SHADER_CODE, 1);
    gpu.enqueue_register_write(REG_SHADER_CODE, 2);
    gpu.enqueue_register_write(REG_SHADER_CONST, 0x0000_00FF);
    gpu.enqueue_register_write(REG_FRAMEBUFFER_FORMAT, 1);
    gpu.enqueue_register_write(REG_DRAW_BASE_VERTEX, 1);
    gpu.enqueue_register_write(REG_DRAW_VERTEX_COUNT, 9);
    gpu.enqueue_register_write(REG_DRAW_TRIGGER, 1);
    gpu.tick(0);
    // Rotation: FF102030 -> FF301020; XOR FF: FF3010DF; to 5-6-5 and back: D8 10 30 FF.
    assert_eq!(pixel(&gpu.frame_u8(), 2, 1), 0xFF30_10D8);
    assert_eq!(gpu.deterministic_render_hash(), {
        let mut hash = 0xcbf2_9ce4_8422_2325u64;
        for i in 0..(400 * 240) {
            let px: u32 = if i == 402 { 0xFF30_10D8 } else { 0xFF00_0000 };
            hash = (hash ^ u64::from(px)).wrapping_mul(0x1000_0000_01B3);
        }
        hash
    });
}

#[test]
fn pixel_operations_have_exact_values() {
    assert_eq!(unpack_rgb565(0xFFFF), 0xFFF8_FCF8);
    assert_eq!(unpack_rgb565(0x0000), 0xFF00_0000);
    assert_eq!(unpack_rgb565(0xF800), 0xFF00_00F8);
    assert_eq!(pack_rgb565(0x00FF_FFFF), 0xFFFF);
    assert_eq!(pack_rgb565(0xFF08_0408), 0x0821);
    assert_eq!(convert_framebuffer_format(FramebufferFormat::Rgba8, 0x1234_5678), 0x1234_5678);
    assert_eq!(convert_framebuffer_format(FramebufferFormat::Rgb565, 0x1234_5678), 0xFF30_5478);
    assert_eq!(combine_color(0, 0x1111_1111, 0x2222_2222), 0x1111_1111);
    assert_eq!(combine_color(1, 0x11F0_8001, 0x2220_8002), 0x11FF_FF03);
    let overwrite = BlendState { equation_rgb: 0, equation_alpha: 9 };
    let mean = BlendState { equation_rgb: 7, equation_alpha: 0 };
    assert_eq!(blend_color(overwrite, 0x1111_1111, 0x2222_2222), 0x2222_2222);
    assert_eq!(blend_color(mean, 0x11FF_0003, 0x22FF_0104), 0x22FF_0003);
    let texels = vec![1, 2, 3, 4, 5, 6, 7, 8, 9, 10, 11, 12, 13, 14, 15, 16];
    assert_eq!(sample_texture(TextureFormat::Rgba8, (2, 2), &texels, 0), 0x0403_0201);
    assert_eq!(sample_texture(TextureFormat::Rgba8, (2, 2), &texels, (1 << 16) | 3), 0x100F_0E0D);
    assert_eq!(sample_texture(TextureFormat::Rgba8, (0, 0), &texels, 5), 0x0403_0201);
    assert_eq!(sample_texture(TextureFormat::Rgba8, (4, 2), &texels, 1 << 16), 0xFFFF_FFFF);
    assert_eq!(sample_texture(TextureFormat::Rgb565, (2, 1), &texels, 1), unpack_rgb565(0x0403));
    assert_eq!(sample_texture(TextureFormat::Rgb565, (1, 1), &vec![1], 0), 0xFFFF_FFFF);
    let mut gpu = PicaGpu::new();
    gpu.load_texture_rgba8(0, 0, &[9, 9, 9, 9]);
    gpu.enqueue_gsp_fifo_words(&[PicaCommandBufferPacket::encode(REG_COLOR_CLEAR, 1, false), 7]);
    gpu.tick(0);
    assert_eq!(pixel(&gpu.frame_u8(), 399, 239), 7);
}

#[test]
fn dma_copies_words_and_feeds_the_gpu() {
    let mut dma = DmaEngine::new();
    let mut memory = Memory::new();
    let mut gpu = PicaGpu::new();
    let copy = |channel: u8, words: u32| DmaTransfer {
        channel,
        source: 0x80,
        destination: 0x84,
        words,
        kind: DmaTransferKind::MemoryToMemory,
    };
    assert_eq!(dma.queue_transfer(copy(1, 0)), 1);
    assert_eq!(dma.queue_transfer(copy(2, 3)), 3);
    assert_eq!(
        dma.queue_transfer(DmaTransfer {
            channel: 2,
            source: 0x80,
            destination: 0xFFFF_FFFF,
            words: 2,
            kind: DmaTransferKind::GpuQueueFeed,
        }),
        2
    );
    memory.write_u32(0x80, 0x0001_0041);
    assert!(!dma.complete_transfer(0, &mut memory, &mut gpu));
    assert!(dma.complete_transfer(1, &mut memory, &mut gpu));
    assert_eq!(memory.read_u32(0x84), 0);
    assert!(!dma.complete_transfer(1, &mut memory, &mut gpu));
    // The copy overlaps itself: each word is read after the one before was written.
    assert!(dma.complete_transfer(2, &mut memory, &mut gpu));
    assert_eq!(memory.read_u32(0x84), 0x0001_0041);
    assert_eq!(memory.read_u32(0x88), 0x0001_0041);
    assert_eq!(memory.read_u32(0x8C), 0x0001_0041);
    assert_eq!(memory.read_u32(0x90), 0);
    memory.write_u32(0x84, (9 << 16) | 8);
    assert!(dma.complete_transfer(2, &mut memory, &mut gpu));
    gpu.tick(0);
    assert_eq!(gpu.state_snapshot().viewport, Viewport { x: 8, y: 9, w: 400, h: 240 });
    assert!(!dma.complete_transfer(2, &mut memory, &mut gpu));
    dma.queue_transfer(copy(3, 1));
    dma.reset();
    assert!(!dma.complete_transfer(3, &mut memory, &mut gpu));
}

#[test]
fn dsp_generates_a_sawtooth_and_keeps_the_newest_samples() {
    let mut dsp = Dsp::new();
    dsp.produce_samples(3);
    assert_eq!(dsp.samples(), &[-4096, -3968, -3840]);
    dsp.produce_samples(62);
    assert_eq!(dsp.samples()[63], 31 * 128);
    assert_eq!(dsp.samples()[64], -4096);
    dsp.produce_samples(5000);
    assert_eq!(dsp.samples().len(), 4096);
    // Sample 5064 is the newest; 5064 mod 64 = 8.
    assert_eq!(dsp.samples()[4095], (8 - 32) * 128);
    assert_eq!(dsp.samples()[0], ((5065 - 4096) % 64 - 32) * 128);
    let taken = dsp.take_samples();
    assert_eq!(taken.len(), 4096);
    assert!(dsp.samples().is_empty());
    dsp.produce_samples(1);
    assert_eq!(dsp.samples(), &[(5065 % 64 - 32) * 128]);
}

#[test]
fn ring_buffer_keeps_the_most_recent_values() {
    let mut ring: RingBuffer<u32> = RingBuffer::new(3);
    assert!(ring.recent(5).is_empty());
    for value in 1..=5 {
        ring.push(value);
    }
    assert_eq!(ring.len(), 3);
    assert_eq!(ring.recent(5), vec![3, 4, 5]);
    assert_eq!(ring.recent(2), vec![4, 5]);
    assert_eq!(ring.recent(0), vec![]);
    ring.clear();
    assert_eq!(ring.len(), 0);
    ring.push(9);
    assert_eq!(ring.recent(1), vec![9]);
    let mut none: RingBuffer<u32> = RingBuffer::new(0);
    none.push(1);
    assert_eq!(none.len(), 0);
}

#[test]
fn boot_profiler_records_first_occurrences_and_flags_divergence() {
    let mut profiler = BootCheckpointProfiler::new();
    profiler.mark(BootCheckpoint::RomLoaded, 0);
    profiler.mark(BootCheckpoint::FirstInstruction, 1);
    profiler.mark(BootCheckpoint::FirstInstruction, 2);
    let snapshot = profiler.snapshot();
    assert_eq!(snapshot.events.len(), 2);
    assert_eq!(snapshot.events[1].cycle, 1);
    assert_eq!(snapshot.divergence_at, None);
    profiler.mark(BootCheckpoint::FirstGpuCommand, 3);
    profiler.mark(BootCheckpoint::CpuHalted, 4);
    let snapshot = profiler.snapshot();
    assert_eq!(snapshot.events.len(), 4);
    assert_eq!(snapshot.divergence_at, Some(2));
    profiler.reset();
    assert_eq!(profiler.snapshot().events.len(), 0);
    for (cycle, checkpoint) in [
        BootCheckpoint::RomLoaded,
        BootCheckpoint::FirstInstruction,
        BootCheckpoint::FirstServiceCall,
        BootCheckpoint::FirstIpcDispatch,
        BootCheckpoint::FirstGpuCommand,
        BootCheckpoint::FirstFramePresent,
    ]
    .into_iter()
    .enumerate()
    {
        profiler.mark(checkpoint, cycle as u64);
    }
    assert_eq!(profiler.snapshot().divergence_at, None);
    profiler.mark(BootCheckpoint::CpuHalted, 9);
    assert_eq!(profiler.snapshot().divergence_at, Some(6));
}

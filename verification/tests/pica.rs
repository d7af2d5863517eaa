use emu3ds::pica::{
    GpuEvent, PicaCommandBufferPacket, PicaCommandProcessor, PicaGpu, REG_ATTRIB_BASE,
    REG_BLEND_EQ, REG_COLOR_CLEAR, REG_DEPTH_STENCIL, REG_DRAW_BASE_VERTEX, REG_DRAW_TRIGGER,
    REG_DRAW_VERTEX_COUNT, REG_SCISSOR_WH, REG_SCISSOR_XY, REG_SHADER_CODE, REG_SHADER_CONST,
    REG_TEV_STAGE0, REG_VERTEX_FORMAT, REG_VIEWPORT_WH, REG_VIEWPORT_XY,
};

fn packet(words: &mut Vec<u32>, reg: u16, val: u32) {
    words.push(PicaCommandBufferPacket::encode(reg, 1, false));
    words.push(val);
}

#[test]
fn processor_decodes_pica_packets() {
    let cmd = PicaCommandProcessor;
    let words = vec![
        PicaCommandBufferPacket::encode(REG_ATTRIB_BASE, 3, true),
        1,
        0,
        1,
        PicaCommandBufferPacket::encode(REG_BLEND_EQ, 1, false),
        0x0302,
    ];
    let writes = cmd.decode_command_words(&words);
    assert_eq!(writes.len(), 4);
    assert_eq!(writes[0].reg, REG_ATTRIB_BASE);
    assert_eq!(writes[2].reg, REG_ATTRIB_BASE + 2);
    assert_eq!(writes[3].reg, REG_BLEND_EQ);
}

#[test]
fn replays_gpu_trace_and_matches_hash_regression() {
    let mut gpu = PicaGpu::new();
    gpu.load_vertex_stream(&[
        (10 << 16) | 10,
        0xFF00_00FF,
        0,
        (20 << 16) | 20,
        0xFF00_FF00,
        0,
        (30 << 16) | 30,
        0xFFFF_0000,
        0,
    ]);
    gpu.load_index_stream_u16(&[0, 1, 2]);
    let mut words = vec![];
    packet(&mut words, REG_VIEWPORT_XY, 0);
    packet(
        &mut words,
        REG_VIEWPORT_WH,
        ((PicaGpu::HEIGHT as u32) << 16) | PicaGpu::WIDTH as u32,
    );
    packet(&mut words, REG_SCISSOR_XY, 0);
    packet(
        &mut words,
        REG_SCISSOR_WH,
        ((PicaGpu::HEIGHT as u32) << 16) | PicaGpu::WIDTH as u32,
    );
    packet(&mut words, REG_VERTEX_FORMAT, 0x0002_0103);
    packet(&mut words, REG_DEPTH_STENCIL, 0x3);
    packet(&mut words, REG_BLEND_EQ, 0x0001);
    packet(&mut words, REG_TEV_STAGE0, 1);
    packet(&mut words, REG_COLOR_CLEAR, 0xFF11_2233);
    packet(&mut words, REG_DRAW_BASE_VERTEX, 0);
    packet(&mut words, REG_DRAW_VERTEX_COUNT, 3);
    packet(&mut words, REG_SHADER_CODE, 0x1);
    packet(&mut words, REG_SHADER_CONST, 0x0010_0020);
    packet(&mut words, REG_DRAW_TRIGGER, 1);
    gpu.enqueue_gsp_fifo_words(&words);
    gpu.tick(0);

    let trace = gpu.trace().to_vec();
    let expected = gpu.deterministic_render_hash();

    let mut replay = PicaGpu::new();
    replay.load_vertex_stream(&[
        (10 << 16) | 10,
        0xFF00_00FF,
        0,
        (20 << 16) | 20,
        0xFF00_FF00,
        0,
        (30 << 16) | 30,
        0xFFFF_0000,
        0,
    ]);
    replay.load_index_stream_u16(&[0, 1, 2]);
    for t in trace {
        replay.enqueue_register_write(t.reg, t.value);
    }
    replay.tick(0);

    assert_eq!(replay.deterministic_render_hash(), expected);
    assert_eq!(gpu.take_events(), vec![GpuEvent::FrameComplete]);
}

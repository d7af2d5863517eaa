use emu3ds::ipc::{CommandBuffer, CommandHeader, IpcDescriptor, IpcMessage};

#[test]
fn command_header_roundtrip() {
    let hdr = CommandHeader {
        command_id: 0x501,
        normal_words: 3,
        translate_words: 1,
    };
    let raw = hdr.encode();
    assert_eq!(CommandHeader::parse(raw), hdr);
}

#[test]
fn command_buffer_parse_enforces_normal_count() {
    assert!(CommandBuffer::parse(&[0x0002_0001, 1]).is_none());
    let cmd = CommandBuffer::parse(&[0x0002_0001, 1, 2]).expect("valid parse");
    assert_eq!(cmd.header.command_id, 1);
    assert_eq!(cmd.words, vec![1, 2]);
}

#[test]
fn ipc_message_roundtrip_with_descriptors() {
    let msg = IpcMessage {
        command_id: 0x22,
        normal_words: vec![0xDEAD_BEEF, 0xCAFE_BABE],
        descriptors: vec![
            IpcDescriptor::CopyHandle(0x44),
            IpcDescriptor::MoveHandle(0x45),
            IpcDescriptor::StaticBuffer {
                index: 3,
                address: 0x1234_0000,
                size: 0x100,
            },
        ],
    };
    let words = msg.clone().into_words();
    let parsed = IpcMessage::parse(&words).expect("message parse");
    assert_eq!(parsed, msg);
}

use emu3ds::ipc::{
    service_name_from_words, service_name_words, CommandBuffer, CommandHeader, IpcDescriptor,
    IpcMessage, KernelObjectType, RESULT_INVALID_COMMAND, RESULT_INVALID_HANDLE, RESULT_NOT_FOUND,
    RESULT_OK,
};
use emu3ds::kernel::dispatch::{
    numeric_path, AptCommand, FsCommand, GspCommand, HidCommand, SrvCommand,
};
use emu3ds::kernel::{Kernel, PendingWake, ServiceCall, ServiceEvent};
use emu3ds::pica::PicaCommandBufferPacket;
use emu3ds::services::{HidInputState, ServiceDefinition, ServiceRegistry, ServiceRuntime, ServiceTarget};
use emu3ds::diagnostics::StructuredError;

fn command(command_id: u16, payload: &[u32]) -> Vec<u32> {
    IpcMessage { command_id, normal_words: payload.to_vec(), descriptors: vec![] }.into_words()
}

fn request(kernel: &mut Kernel, pid: u32, session: u32, command_id: u16, payload: &[u32]) -> (u32, Vec<u32>) {
    kernel.queue_ipc_command(pid, session, command(command_id, payload));
    kernel.pump_ipc_events(1);
    let response = kernel.pop_ipc_response(pid).expect("response");
    (response.result_code, response.words)
}

fn session(kernel: &mut Kernel, pid: u32, name: &str) -> u32 {
    kernel.connect_to_service(pid, name).expect("session")
}

#[test]
fn result_codes_have_the_documented_values() {
    assert_eq!(RESULT_OK, 0);
    assert_eq!(RESULT_NOT_FOUND, 0xD8A1_83F8);
    assert_eq!(RESULT_INVALID_HANDLE, 0xD8A1_83FA);
    assert_eq!(RESULT_INVALID_COMMAND, 0xD8A1_8404);
}

#[test]
fn header_word_is_command_normal_and_translate_counts() {
    let header = CommandHeader { command_id: 0xABCD, normal_words: 0x3FF, translate_words: 0x3F };
    assert_eq!(header.encode(), 0xABCD | (0x3FF << 16) | (0x3F << 26));
    assert_eq!(CommandHeader::parse(header.encode()), header.clone());
    assert_eq!(
        CommandHeader::parse(0xFFFF_FFFF),
        CommandHeader { command_id: 0xFFFF, normal_words: 0x3FF, translate_words: 0x3F }
    );
    assert_eq!(
        CommandHeader::parse(0x0402_0005),
        CommandHeader { command_id: 5, normal_words: 2, translate_words: 1 }
    );
    assert_eq!(header.describe(), "cmd=0xABCD normal=1023 translate=63");
}

#[test]
fn message_words_follow_the_wire_format() {
    let message = IpcMessage {
        command_id: 0x0102,
        normal_words: vec![7],
        descriptors: vec![
            IpcDescriptor::StaticBuffer { index: 0xF, address: 0xCAFE_0000, size: 0x00FF_FFFF },
            IpcDescriptor::CopyHandle(0x0FFF_FFFF),
            IpcDescriptor::MoveHandle(1),
        ],
    };
    assert_eq!(
        message.clone().into_words(),
        vec![
            0x0102 | (1 << 16) | (4 << 26),
            7,
            0xAFFF_FFFF,
            0xCAFE_0000,
            0x8FFF_FFFF,
            0x9000_0001,
        ]
    );
    assert_eq!(IpcMessage::parse(&message.clone().into_words()), Some(message));
}

#[test]
fn malformed_messages_do_not_parse() {
    assert_eq!(IpcMessage::parse(&[]), None);
    assert!(CommandBuffer::parse(&[]).is_none());
    // One normal word announced, none there.
    assert_eq!(IpcMessage::parse(&[0x0001_0001]), None);
    // One translate word announced, none there.
    assert_eq!(IpcMessage::parse(&[0x0400_0001]), None);
    // Unknown descriptor tag.
    assert_eq!(IpcMessage::parse(&[0x0400_0001, 0x7000_0000]), None);
    // A static buffer without its address.
    assert_eq!(IpcMessage::parse(&[0x0800_0001, 0xA000_0010]), None);
    // Words behind the message are ignored.
    assert_eq!(
        IpcMessage::parse(&[0x0001_0009, 5, 6, 7]),
        Some(IpcMessage { command_id: 9, normal_words: vec![5], descriptors: vec![] })
    );
    let buffer = CommandBuffer {
        header: CommandHeader { command_id: 3, normal_words: 9, translate_words: 0 },
        words: vec![1, 2],
    };
    assert_eq!(buffer.into_words(), vec![3 | (2 << 16), 1, 2]);
}

#[test]
fn service_names_pack_into_two_words_and_back() {
    assert_eq!(service_name_words("srv:"), [0x3A76_7273, 0]);
    assert_eq!(service_name_words("hid:USER"), [0x3A64_6968, 0x5245_5355]);
    assert_eq!(service_name_words("abcdefghij"), [0x6463_6261, 0x6867_6665]);
    assert_eq!(service_name_words(""), [0, 0]);
    assert_eq!(service_name_from_words(&service_name_words("hid:USER")), "hid:USER");
    assert_eq!(service_name_from_words(&service_name_words("srv:")), "srv:");
    assert_eq!(service_name_from_words(&[0x0062_0061, 0x6363_6363]), "a");
    assert_eq!(service_name_from_words(&[0x6261]), "ab");
    assert_eq!(service_name_from_words(&[]), "");
    // An ill-formed byte is replaced, not handed through.
    assert_eq!(service_name_from_words(&[0x0000_00FF]), "\u{FFFD}");
    assert_eq!(numeric_path(0x0000_2000), "/00002000");
    assert_eq!(numeric_path(0xDEAD_BEEF), "/deadbeef");
}

#[test]
fn registry_replaces_definitions_of_the_same_name() {
    let mut registry = ServiceRegistry::bootstrap();
    assert_eq!(registry.len(), 5);
    assert_eq!(
        registry.definition("srv:"),
        Some(ServiceDefinition { target: ServiceTarget::Srv, max_sessions: 32 })
    );
    assert_eq!(
        registry.definition("gsp::Gpu"),
        Some(ServiceDefinition { target: ServiceTarget::GspGpu, max_sessions: 4 })
    );
    assert_eq!(registry.definition("ndm:u"), None);
    registry.register("fs:USER", ServiceTarget::FsUser, 1);
    registry.register("ndm:u", ServiceTarget::Srv, 2);
    assert_eq!(registry.len(), 6);
    let names: Vec<String> = registry.iter().into_iter().map(|entry| entry.name).collect();
    assert_eq!(names, vec!["srv:", "fs:USER", "apt:u", "gsp::Gpu", "hid:USER", "ndm:u"]);
    assert_eq!(registry.definition("fs:USER").map(|d| d.max_sessions), Some(1));
    assert_eq!(ServiceRegistry::default().len(), 0);
    assert_eq!(HidInputState::default(), HidInputState { buttons: 0, touch_x: 0, touch_y: 0 });
    assert_eq!(ServiceRuntime::default().gpu_handoff.len(), 0);
}

#[test]
fn handles_are_allocated_monotonically_from_the_first_free_one() {
    let mut kernel = Kernel::new();
    // Five ports were allocated at boot, 0x20..0x24.
    assert_eq!(kernel.handle_type(1, 0x20), Some(KernelObjectType::Port));
    assert_eq!(kernel.handle_type(1, 0x24), Some(KernelObjectType::Port));
    assert_eq!(kernel.handle_type(1, 0x25), None);
    let a = kernel.create_event(1, "a");
    let b = kernel.create_event(1, "b");
    assert_eq!((a, b), (0x25, 0x26));
    // An event for a process that does not exist consumes a handle that no one holds.
    let ghost = kernel.create_event(55, "ghost");
    assert_eq!(ghost, 0x27);
    assert_eq!(kernel.handle_type(55, ghost), None);
    assert_eq!(kernel.duplicate_handle(55, ghost), None);
    assert!(!kernel.close_handle(55, ghost));
    assert_eq!(kernel.last_result_code(55), None);
    assert_eq!(kernel.last_result_code(1), Some(0));
}

#[test]
fn handles_do_not_resolve_in_other_processes() {
    let mut kernel = Kernel::new();
    let in_a = session(&mut kernel, 10, "fs:USER");
    let in_b = session(&mut kernel, 11, "hid:USER");
    assert_eq!(kernel.handle_type(10, in_a), Some(KernelObjectType::Session));
    assert_eq!(kernel.handle_type(11, in_a), None);
    assert_eq!(kernel.handle_type(11, in_b), Some(KernelObjectType::Session));
    assert_eq!(kernel.handle_type(10, in_b), None);
    // A request on a handle of another process is refused.
    assert_eq!(request(&mut kernel, 11, in_a, 0x0001, &[0]), (RESULT_INVALID_HANDLE, vec![]));
    // A port is no session.
    assert_eq!(request(&mut kernel, 1, 0x20, 0x0005, &[0, 0]), (RESULT_INVALID_HANDLE, vec![]));
    assert_eq!(kernel.connect_to_service(10, "nope"), None);
}

#[test]
fn broker_registers_and_connects() {
    let mut kernel = Kernel::new();
    let srv = session(&mut kernel, 9, "srv:");
    let name = service_name_words("my:SVC");
    assert_eq!(request(&mut kernel, 9, srv, 0x0005, &name), (RESULT_NOT_FOUND, vec![]));
    assert_eq!(request(&mut kernel, 9, srv, 0x0001, &name), (RESULT_INVALID_COMMAND, vec![]));
    assert_eq!(request(&mut kernel, 9, srv, 0x0005, &[1]), (RESULT_INVALID_COMMAND, vec![]));
    assert_eq!(request(&mut kernel, 9, srv, 0x0042, &[]), (RESULT_INVALID_COMMAND, vec![]));
    let (code, words) = request(&mut kernel, 9, srv, 0x0001, &[name[0], name[1], 3]);
    assert_eq!(code, RESULT_OK);
    assert_eq!(kernel.handle_type(9, words[0]), Some(KernelObjectType::Port));
    let (code, words) = request(&mut kernel, 9, srv, 0x0005, &name);
    assert_eq!(code, RESULT_OK);
    assert_eq!(kernel.handle_type(9, words[0]), Some(KernelObjectType::Session));
    // Sessions of a registered service reach the broker.
    assert_eq!(request(&mut kernel, 9, words[0], 0x0005, &[1]), (RESULT_INVALID_COMMAND, vec![]));
    // Once its owner closes the port, the service cannot be connected to.
    let port = kernel.register_service_port(9, "tmp", 1);
    assert!(kernel.connect_to_service(9, "tmp").is_some());
    assert!(kernel.close_handle(9, port));
    assert_eq!(kernel.connect_to_service(9, "tmp"), None);
}

#[test]
fn file_system_service_opens_archives_and_files() {
    let mut kernel = Kernel::new();
    let fs = session(&mut kernel, 3, "fs:USER");
    // The read-only file system is not mounted.
    assert_eq!(request(&mut kernel, 3, fs, 0x0001, &[2]), (RESULT_NOT_FOUND, vec![]));
    assert_eq!(request(&mut kernel, 3, fs, 0x0001, &[4]), (RESULT_NOT_FOUND, vec![]));
    let (code, words) = request(&mut kernel, 3, fs, 0x0001, &[]);
    assert_eq!(code, RESULT_OK);
    let archive = words[0];
    assert_eq!(kernel.handle_type(3, archive), Some(KernelObjectType::Archive));
    assert_eq!(request(&mut kernel, 3, fs, 0x0002, &[archive]), (RESULT_INVALID_COMMAND, vec![]));
    assert_eq!(request(&mut kernel, 3, fs, 0x0002, &[fs, 1]), (RESULT_INVALID_HANDLE, vec![]));
    let (code, words) = request(&mut kernel, 3, fs, 0x0002, &[archive, 0x77]);
    assert_eq!(code, RESULT_OK);
    let file = words[0];
    assert_eq!(kernel.handle_type(3, file), Some(KernelObjectType::File));
    assert_eq!(request(&mut kernel, 3, fs, 0x0003, &[file, 0]), (RESULT_INVALID_COMMAND, vec![]));
    assert_eq!(request(&mut kernel, 3, fs, 0x0003, &[archive, 0, 1]), (RESULT_INVALID_HANDLE, vec![]));
    assert_eq!(request(&mut kernel, 3, fs, 0x0003, &[file, 0, 0x40]), (RESULT_OK, vec![0]));
    assert_eq!(request(&mut kernel, 3, fs, 0x0009, &[]), (RESULT_INVALID_COMMAND, vec![]));
    let copy = kernel.duplicate_handle(3, file).expect("copy");
    assert!(kernel.close_handle(3, file));
    assert_eq!(request(&mut kernel, 3, fs, 0x0003, &[copy, 0, 1]), (RESULT_OK, vec![0]));
    assert_eq!(kernel.last_result_code(3), Some(RESULT_OK));
}

#[test]
fn mounted_romfs_is_served_by_the_file_system_service() {
    let mut blob = Vec::new();
    blob.extend_from_slice(b"ROMF");
    blob.extend_from_slice(&1u32.to_le_bytes());
    let path = b"/romfs/00000abc";
    blob.extend_from_slice(&(path.len() as u16).to_le_bytes());
    blob.extend_from_slice(&40u32.to_le_bytes());
    blob.extend_from_slice(&5u32.to_le_bytes());
    blob.extend_from_slice(path);
    blob.resize(40, 0);
    blob.extend_from_slice(&[1, 2, 3, 4, 5]);
    let romfs = emu3ds::loader::RomFs::parse(&blob).expect("romfs");
    let mut kernel = Kernel::new();
    kernel.mount_romfs(romfs);
    let fs = session(&mut kernel, 3, "fs:USER");
    let (code, words) = request(&mut kernel, 3, fs, 0x0001, &[2]);
    assert_eq!(code, RESULT_OK);
    let archive = words[0];
    assert_eq!(request(&mut kernel, 3, fs, 0x0002, &[archive, 0xABD]), (RESULT_NOT_FOUND, vec![]));
    let (code, words) = request(&mut kernel, 3, fs, 0x0002, &[archive, 0xABC]);
    assert_eq!(code, RESULT_OK);
    assert_eq!(request(&mut kernel, 3, fs, 0x0003, &[words[0], 1, 0x40]), (RESULT_OK, vec![4]));
    assert_eq!(request(&mut kernel, 3, fs, 0x0003, &[words[0], 9, 0x40]), (RESULT_OK, vec![0]));
}

#[test]
fn application_gpu_and_input_services() {
    let mut kernel = Kernel::new();
    let apt = session(&mut kernel, 4, "apt:u");
    assert_eq!(request(&mut kernel, 4, apt, 0x0001, &[]), (RESULT_OK, vec![1]));
    assert_eq!(request(&mut kernel, 4, apt, 0x0002, &[9]), (RESULT_OK, vec![9]));
    assert_eq!(request(&mut kernel, 4, apt, 0x0002, &[]), (RESULT_OK, vec![9]));
    assert_eq!(request(&mut kernel, 4, apt, 0x0003, &[]), (RESULT_INVALID_COMMAND, vec![]));
    let gsp = session(&mut kernel, 4, "gsp::Gpu");
    assert_eq!(request(&mut kernel, 4, gsp, 0x0001, &[]), (RESULT_OK, vec![]));
    assert_eq!(request(&mut kernel, 4, gsp, 0x0001, &[0x1234]), (RESULT_OK, vec![]));
    assert_eq!(request(&mut kernel, 4, gsp, 0x0002, &[1, 2]), (RESULT_INVALID_COMMAND, vec![]));
    assert_eq!(request(&mut kernel, 4, gsp, 0x0002, &[0x1_0003, 4, 0xFF00_00FF]), (RESULT_OK, vec![]));
    assert_eq!(request(&mut kernel, 4, gsp, 0x0007, &[]), (RESULT_INVALID_COMMAND, vec![]));
    assert_eq!(
        kernel.drain_gpu_handoff(),
        vec![
            vec![PicaCommandBufferPacket::encode(0x0200, 1, false), 0xFF00_0000],
            vec![PicaCommandBufferPacket::encode(0x0200, 1, false), 0x1234],
            vec![
                PicaCommandBufferPacket::encode(0x0201, 1, false),
                (4 << 16) | 3,
                PicaCommandBufferPacket::encode(0x0202, 1, false),
                0xFF00_00FF,
            ],
        ]
    );
    assert!(kernel.drain_gpu_handoff().is_empty());
    let hid = session(&mut kernel, 4, "hid:USER");
    assert_eq!(request(&mut kernel, 4, hid, 0x000B, &[1, 2]), (RESULT_INVALID_COMMAND, vec![]));
    assert_eq!(request(&mut kernel, 4, hid, 0x000B, &[5, 0x1_0140, 0x78]), (RESULT_OK, vec![]));
    assert_eq!(request(&mut kernel, 4, hid, 0x000A, &[]), (RESULT_OK, vec![5, 0x140, 0x78]));
    assert_eq!(request(&mut kernel, 4, hid, 0x0001, &[]), (RESULT_OK, vec![1]));
    assert_eq!(request(&mut kernel, 4, hid, 0x000A, &[]), (RESULT_OK, vec![0, 0, 0]));
    assert_eq!(request(&mut kernel, 4, hid, 0x0002, &[]), (RESULT_INVALID_COMMAND, vec![]));
    assert_eq!(kernel.take_last_ipc_dispatch(), Some((0x0002, hid, RESULT_INVALID_COMMAND)));
    assert_eq!(kernel.take_last_ipc_dispatch(), None);
}

#[test]
fn pump_serves_processes_in_order_of_id_one_request_per_step() {
    let mut kernel = Kernel::new();
    let high = session(&mut kernel, 30, "apt:u");
    let low = session(&mut kernel, 20, "apt:u");
    kernel.queue_ipc_command(30, high, command(0x0002, &[30]));
    kernel.queue_ipc_command(20, low, command(0x0002, &[20]));
    kernel.queue_ipc_command(20, low, command(0x0001, &[]));
    kernel.pump_ipc_events(0);
    assert_eq!(kernel.pop_ipc_response(20), None);
    kernel.pump_ipc_events(2);
    assert_eq!(kernel.pop_ipc_response(30), None);
    assert_eq!(kernel.pop_ipc_response(20).expect("first").words, vec![20]);
    assert_eq!(kernel.pop_ipc_response(20).expect("second").words, vec![20]);
    kernel.pump_ipc_events(5);
    assert_eq!(kernel.pop_ipc_response(30).expect("third").words, vec![30]);
    assert_eq!(kernel.pop_ipc_response(30), None);
    assert_eq!(kernel.pop_ipc_response(99), None);
    // Words that do not parse are queued as an empty message with command 0.
    kernel.queue_ipc_command(20, low, vec![]);
    kernel.pump_ipc_events(1);
    assert_eq!(kernel.pop_ipc_response(20).expect("empty").result_code, RESULT_INVALID_COMMAND);
}

#[test]
fn system_calls_are_selected_by_the_interrupt_number() {
    let mut kernel = Kernel::new();
    assert_eq!(kernel.dispatch_syscall(5, 0x00, &[]), ServiceCall::Yield);
    assert_eq!(kernel.dispatch_syscall(5, 0x01, &[]), ServiceCall::GetTick);
    assert_eq!(kernel.dispatch_syscall(5, 0x7F, &[]), ServiceCall::Unknown(0x7F));
    assert_eq!(kernel.handle_type(5, 0x25), None);
    assert_eq!(kernel.dispatch_syscall(5, 0x23, &[]), ServiceCall::CreateEvent);
    assert_eq!(kernel.handle_type(5, 0x25), Some(KernelObjectType::Event));
    assert_eq!(kernel.dispatch_syscall(5, 0x27, &[0x25]), ServiceCall::DuplicateHandle);
    assert_eq!(kernel.handle_type(5, 0x26), Some(KernelObjectType::Event));
    assert_eq!(kernel.dispatch_syscall(5, 0x27, &[]), ServiceCall::DuplicateHandle);
    assert_eq!(kernel.handle_type(5, 0x27), None);
    assert_eq!(kernel.dispatch_syscall(5, 0x29, &[0x25]), ServiceCall::CloseHandle);
    assert_eq!(kernel.handle_type(5, 0x25), None);
    assert_eq!(kernel.handle_type(5, 0x26), Some(KernelObjectType::Event));
    kernel.handle_swi(0x23);
    kernel.handle_swi(0x99);
    assert_eq!(kernel.service_call_count(), 2);
    assert_eq!(
        kernel.last_service_call(),
        Some(ServiceEvent { call: ServiceCall::Unknown(0x99), argument: 0x99 })
    );
    assert_eq!(kernel.take_last_service_imm24(), Some(0x99));
    assert_eq!(kernel.take_last_service_imm24(), None);
    kernel.tick(3);
    kernel.reset_runtime();
    assert_eq!(kernel.service_call_count(), 0);
    assert_eq!(kernel.last_service_call(), None);
    assert_eq!(kernel.handle_type(5, 0x26), None);
}

#[test]
fn send_sync_request_blocks_an_idle_process_until_it_is_woken() {
    let mut kernel = Kernel::new();
    let apt = session(&mut kernel, 8, "apt:u");
    assert_eq!(kernel.dispatch_syscall(8, 0x32, &[]), ServiceCall::SendSyncRequest);
    assert_eq!(
        kernel.take_pending_schedule_events(),
        vec![PendingWake { pid: 8, delay_cycles: 64 }]
    );
    assert!(kernel.take_pending_schedule_events().is_empty());
    // A blocked process is passed over by the pump.
    kernel.queue_ipc_command(8, apt, command(0x0001, &[]));
    kernel.pump_ipc_events(1);
    assert_eq!(kernel.pop_ipc_response(8), None);
    kernel.on_scheduler_wake(8);
    kernel.on_scheduler_wake(1234);
    // With a request queued, the call pumps one step instead of blocking.
    assert_eq!(kernel.dispatch_syscall(8, 0x32, &[]), ServiceCall::SendSyncRequest);
    assert!(kernel.take_pending_schedule_events().is_empty());
    assert_eq!(kernel.pop_ipc_response(8).expect("pumped").words, vec![1]);
}

#[test]
fn reported_errors_are_kept_until_taken() {
    let mut kernel = Kernel::new();
    assert_eq!(kernel.take_last_error(), None);
    let error = StructuredError::CpuInvalidInstruction { pc: 4, opcode: 0xFFFF_FFFF };
    kernel.report_error(error);
    assert_eq!(kernel.take_last_error(), Some(error));
    assert_eq!(kernel.take_last_error(), None);
}

#[test]
fn commands_are_named_by_their_ids() {
    assert_eq!(SrvCommand::from_id(0x0001), Some(SrvCommand::RegisterService));
    assert_eq!(SrvCommand::from_id(0x0005), Some(SrvCommand::GetServiceHandle));
    assert_eq!(SrvCommand::from_id(0x0002), None);
    assert_eq!(FsCommand::from_id(0x0001), Some(FsCommand::OpenArchive));
    assert_eq!(FsCommand::from_id(0x0002), Some(FsCommand::OpenFile));
    assert_eq!(FsCommand::from_id(0x0003), Some(FsCommand::ReadFile));
    assert_eq!(FsCommand::from_id(0x0000), None);
    assert_eq!(AptCommand::from_id(0x0001), Some(AptCommand::GetAppState));
    assert_eq!(AptCommand::from_id(0x0002), Some(AptCommand::SetAppState));
    assert_eq!(AptCommand::from_id(0x0003), None);
    assert_eq!(GspCommand::from_id(0x0001), Some(GspCommand::SetFrameClearColor));
    assert_eq!(GspCommand::from_id(0x0002), Some(GspCommand::QueuePixel));
    assert_eq!(GspCommand::from_id(0xFFFF), None);
    assert_eq!(HidCommand::from_id(0x0001), Some(HidCommand::Initialize));
    assert_eq!(HidCommand::from_id(0x000A), Some(HidCommand::GetInputState));
    assert_eq!(HidCommand::from_id(0x000B), Some(HidCommand::SetInputState));
    assert_eq!(HidCommand::from_id(0x000C), None);
}

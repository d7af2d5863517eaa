use std::collections::HashMap;

use emu3ds::ipc::{
    service_name_words, IpcMessage, KernelObjectType, RESULT_INVALID_HANDLE, RESULT_OK,
};
use emu3ds::kernel::Kernel;

fn mk_command(command_id: u16, payload: &[u32]) -> Vec<u32> {
    IpcMessage {
        command_id,
        normal_words: payload.to_vec(),
        descriptors: vec![],
    }
    .into_words()
}

#[test]
fn srv_registration_and_handle_acquisition() {
    let mut kernel = Kernel::new();
    let pid = 42;
    kernel.ensure_process(pid);

    let srv_handle = kernel.connect_to_service(pid, "srv:").expect("srv handle");
    let name_words = service_name_words("hid:USER");
    kernel.queue_ipc_command(
        pid,
        srv_handle,
        mk_command(0x0001, &[name_words[0], name_words[1], 2]),
    );
    kernel.pump_ipc_events(1);
    let reg = kernel.pop_ipc_response(pid).expect("registration response");
    assert_eq!(reg.result_code, RESULT_OK);
    assert_eq!(reg.words.len(), 1);

    kernel.queue_ipc_command(pid, srv_handle, mk_command(0x0005, &name_words));
    kernel.pump_ipc_events(1);
    let get = kernel.pop_ipc_response(pid).expect("get service response");
    assert_eq!(get.result_code, RESULT_OK);
    assert_eq!(get.words.len(), 1);
}

#[test]
fn minimal_service_init_sequence() {
    let mut kernel = Kernel::new();
    let pid = 7;
    kernel.ensure_process(pid);

    let srv = kernel.connect_to_service(pid, "srv:").expect("srv session");
    let fs_name = service_name_words("fs:USER");
    kernel.queue_ipc_command(pid, srv, mk_command(0x0005, &fs_name));
    kernel.pump_ipc_events(1);
    let fs = kernel.pop_ipc_response(pid).expect("fs response").words[0];

    kernel.queue_ipc_command(pid, fs, mk_command(0x0001, &[1]));
    kernel.pump_ipc_events(1);
    let archive = kernel.pop_ipc_response(pid).expect("archive").words[0];

    kernel.queue_ipc_command(pid, fs, mk_command(0x0002, &[archive, 0x1234]));
    kernel.pump_ipc_events(1);
    let file = kernel.pop_ipc_response(pid).expect("file");
    assert_eq!(file.result_code, RESULT_OK);
    assert_eq!(file.words.len(), 1);

    let apt_name = service_name_words("apt:u");
    kernel.queue_ipc_command(pid, srv, mk_command(0x0005, &apt_name));
    kernel.pump_ipc_events(1);
    let apt = kernel.pop_ipc_response(pid).expect("apt").words[0];

    kernel.queue_ipc_command(pid, apt, mk_command(0x0001, &[]));
    kernel.pump_ipc_events(1);
    let app_state = kernel.pop_ipc_response(pid).expect("app state");
    assert_eq!(app_state.result_code, RESULT_OK);
    assert_eq!(app_state.words[0], 1);
}

#[test]
fn handle_validity_duplicate_and_close() {
    let mut kernel = Kernel::new();
    let pid_a = 100;
    let pid_b = 101;
    kernel.ensure_process(pid_a);
    kernel.ensure_process(pid_b);

    let event = kernel.create_event(pid_a, "unit:event");
    assert_eq!(
        kernel.handle_type(pid_a, event),
        Some(KernelObjectType::Event)
    );
    assert_eq!(kernel.handle_type(pid_b, event), None);

    let dup = kernel
        .duplicate_handle(pid_a, event)
        .expect("duplicate event");
    assert_ne!(dup, event);
    assert_eq!(
        kernel.handle_type(pid_a, dup),
        Some(KernelObjectType::Event)
    );

    assert!(kernel.close_handle(pid_a, event));
    assert_eq!(kernel.handle_type(pid_a, event), None);
    assert_eq!(
        kernel.handle_type(pid_a, dup),
        Some(KernelObjectType::Event)
    );
}

#[test]
fn service_session_lifecycle() {
    let mut kernel = Kernel::new();
    let pid = 77;
    kernel.ensure_process(pid);

    let srv = kernel.connect_to_service(pid, "srv:").expect("srv session");
    assert_eq!(
        kernel.handle_type(pid, srv),
        Some(KernelObjectType::Session)
    );

    assert!(kernel.close_handle(pid, srv));
    assert_eq!(kernel.handle_type(pid, srv), None);

    kernel.queue_ipc_command(pid, srv, mk_command(0x0005, &service_name_words("fs:USER")));
    kernel.pump_ipc_events(1);
    let failed = kernel.pop_ipc_response(pid).expect("response after close");
    assert_eq!(failed.result_code, RESULT_INVALID_HANDLE);
}

#[test]
fn hid_user_tracks_minimal_input_state() {
    let mut kernel = Kernel::new();
    let pid = 91;
    kernel.ensure_process(pid);

    let srv = kernel.connect_to_service(pid, "srv:").expect("srv session");
    kernel.queue_ipc_command(
        pid,
        srv,
        mk_command(0x0005, &service_name_words("hid:USER")),
    );
    kernel.pump_ipc_events(1);
    let hid = kernel.pop_ipc_response(pid).expect("hid handle").words[0];

    kernel.queue_ipc_command(pid, hid, mk_command(0x0001, &[]));
    kernel.queue_ipc_command(pid, hid, mk_command(0x000B, &[0x12, 320, 120]));
    kernel.queue_ipc_command(pid, hid, mk_command(0x000A, &[]));
    kernel.pump_ipc_events(3);
    assert_eq!(
        kernel.pop_ipc_response(pid).expect("init").result_code,
        RESULT_OK
    );
    assert_eq!(
        kernel.pop_ipc_response(pid).expect("set").result_code,
        RESULT_OK
    );
    let state = kernel.pop_ipc_response(pid).expect("get");
    assert_eq!(state.result_code, RESULT_OK);
    assert_eq!(state.words, vec![0x12, 320, 120]);
}

#[test]
fn boot_sequence_replay_for_target_title_services() {
    let mut kernel = Kernel::new();
    let pid = 123;
    kernel.ensure_process(pid);

    let srv = kernel.connect_to_service(pid, "srv:").expect("srv session");
    let service_names = ["fs:USER", "apt:u", "gsp::Gpu", "hid:USER"];
    let mut handles = HashMap::new();

    for service in service_names {
        kernel.queue_ipc_command(pid, srv, mk_command(0x0005, &service_name_words(service)));
        kernel.pump_ipc_events(1);
        let response = kernel
            .pop_ipc_response(pid)
            .expect("service handle response");
        assert_eq!(response.result_code, RESULT_OK);
        handles.insert(service, response.words[0]);
    }

    let fs = handles["fs:USER"];
    kernel.queue_ipc_command(pid, fs, mk_command(0x0001, &[0]));
    kernel.pump_ipc_events(1);
    let archive = kernel.pop_ipc_response(pid).expect("archive response");
    assert_eq!(archive.result_code, RESULT_OK);

    let archive_handle = archive.words[0];
    kernel.queue_ipc_command(pid, fs, mk_command(0x0002, &[archive_handle, 0x2000]));
    kernel.pump_ipc_events(1);
    let file = kernel.pop_ipc_response(pid).expect("file response");
    assert_eq!(file.result_code, RESULT_OK);

    let file_handle = file.words[0];
    kernel.queue_ipc_command(pid, fs, mk_command(0x0003, &[file_handle, 0, 0x40]));

    let apt = handles["apt:u"];
    kernel.queue_ipc_command(pid, apt, mk_command(0x0001, &[]));

    let gsp = handles["gsp::Gpu"];
    kernel.queue_ipc_command(pid, gsp, mk_command(0x0001, &[0xFF00_FF00]));

    let hid = handles["hid:USER"];
    kernel.queue_ipc_command(pid, hid, mk_command(0x0001, &[]));
    kernel.queue_ipc_command(pid, hid, mk_command(0x000A, &[]));

    kernel.pump_ipc_events(5);
    for _ in 0..5 {
        let response = kernel.pop_ipc_response(pid).expect("ordered response");
        assert_eq!(response.result_code, RESULT_OK);
    }
}

use vstd::prelude::*;
use std::collections::HashMap;
use std::collections::VecDeque;
use crate::diagnostics::StructuredError;
use crate::fs::{ArchiveHandle, FileHandle, FileModel, VfsModel, VirtualFileSystem};
use crate::ipc::{Handle, IpcEvent, IpcMessage, MessageModel, ProcessId};
use crate::services::{
    HidInputState, ServiceEntryModel, ServiceRegistry, ServiceTarget,
};

pub mod dispatch;
pub mod pump;
pub mod table;

verus! {

/// The process that owns the ports of the built-in services.
pub const KERNEL_PROCESS_ID: ProcessId = 1;

/// The first handle that is handed out.
pub const FIRST_HANDLE: Handle = 0x20;

/// Cycles after which a process that waits for IPC is woken.
pub const WAKE_DELAY_CYCLES: u64 = 64;

#[derive(Debug, Clone, Copy, PartialEq, Eq, Structural)]
pub enum ServiceCall {
    Yield,
    GetTick,
    SendSyncRequest,
    CreateEvent,
    DuplicateHandle,
    CloseHandle,
    Unknown(u32),
}

#[derive(Debug, Clone, Copy, PartialEq, Eq, Structural)]
pub struct ServiceEvent {
    pub call: ServiceCall,
    pub argument: u32,
}

/// What a handle refers to. Events and files are named by their index in the
/// kernel's tables, so that duplicated handles refer to the same object.
#[derive(Debug, Clone, Copy, PartialEq, Eq, Structural)]
pub enum KernelObject {
    Port(ServiceTarget),
    Session(ServiceTarget),
    Event(usize),
    Archive(ArchiveHandle),
    File(usize),
}

/// The answer to an IPC request.
#[derive(Debug, Clone, PartialEq, Eq)]
pub struct IpcResponse {
    pub result_code: u32,
    pub words: Vec<u32>,
}

/// Mathematical model of an answer.
pub struct ResponseModel {
    pub result_code: u32,
    pub words: Seq<u32>,
}

impl View for IpcResponse {
    type V = ResponseModel;

    open spec fn view(&self) -> ResponseModel {
        ResponseModel { result_code: self.result_code, words: self.words@ }
    }
}

/// A queued IPC request: the session it is sent on, and the message.
#[derive(Debug, Clone)]
pub struct IpcRequest {
    pub session_handle: Handle,
    pub message: IpcMessage,
}

/// Mathematical model of a request.
pub struct RequestModel {
    pub session_handle: Handle,
    pub message: MessageModel,
}

impl View for IpcRequest {
    type V = RequestModel;

    open spec fn view(&self) -> RequestModel {
        RequestModel { session_handle: self.session_handle, message: self.message@ }
    }
}

/// A wake-up that the kernel asks the scheduler for.
#[derive(Debug, Clone, Copy, PartialEq, Eq, Structural)]
pub struct PendingWake {
    pub pid: ProcessId,
    pub delay_cycles: u64,
}

/// The port under which a service can be connected to.
pub struct ServicePort {
    pub name: String,
    pub pid: ProcessId,
    pub handle: Handle,
}

/// Mathematical model of a service port.
pub struct PortModel {
    pub name: Seq<char>,
    pub pid: ProcessId,
    pub handle: Handle,
}

impl View for ServicePort {
    type V = PortModel;

    open spec fn view(&self) -> PortModel {
        PortModel { name: self.name@, pid: self.pid, handle: self.handle }
    }
}

/// Mathematical model of a synchronisation event.
pub struct EventModel {
    pub name: Seq<char>,
    pub signaled: bool,
}

/// A process as the kernel sees it.
pub struct ProcessState {
    pub pid: ProcessId,
    pub handles: HashMap<Handle, KernelObject>,
    pub pending_requests: VecDeque<IpcRequest>,
    pub pending_responses: VecDeque<IpcResponse>,
    pub last_result_code: u32,
    pub blocked: bool,
}

/// Mathematical model of a process.
pub struct ProcessView {
    pub pid: ProcessId,
    pub handles: Map<Handle, KernelObject>,
    pub requests: Seq<RequestModel>,
    pub responses: Seq<ResponseModel>,
    pub last_result_code: u32,
    pub blocked: bool,
}

impl View for ProcessState {
    type V = ProcessView;

    open spec fn view(&self) -> ProcessView {
        ProcessView {
            pid: self.pid,
            handles: self.handles@,
            requests: Seq::new(
                self.pending_requests@.len(),
                |i: int| self.pending_requests@[i]@,
            ),
            responses: Seq::new(
                self.pending_responses@.len(),
                |i: int| self.pending_responses@[i]@,
            ),
            last_result_code: self.last_result_code,
            blocked: self.blocked,
        }
    }
}

impl ProcessView {
    /// A process without handles and without queued IPC.
    pub open spec fn fresh(pid: ProcessId) -> ProcessView {
        ProcessView {
            pid,
            handles: Map::empty(),
            requests: Seq::empty(),
            responses: Seq::empty(),
            last_result_code: 0,
            blocked: false,
        }
    }
}

/// Micro-kernel state: processes with their handle tables and IPC queues, the
/// service registry and ports, and the state of the built-in services.
pub struct Kernel {
    pub svc_log: Vec<ServiceEvent>,
    pub ticks: u64,
    pub next_handle: Handle,
    pub processes: Vec<ProcessState>,
    pub service_ports: Vec<ServicePort>,
    pub registry: ServiceRegistry,
    pub app_state: u32,
    pub gpu_handoff: VecDeque<Vec<u32>>,
    pub hid_state: HidInputState,
    pub events: Vec<IpcEvent>,
    pub files: Vec<FileHandle>,
    pub vfs: VirtualFileSystem,
    pub last_ipc: Option<(u16, Handle, u32)>,
    pub last_service_imm24: Option<u32>,
    pub last_error: Option<StructuredError>,
    pub pending_wakes: Vec<PendingWake>,
}

/// Mathematical model of the kernel.
pub struct KernelModel {
    pub svc_log: Seq<ServiceEvent>,
    pub ticks: u64,
    pub next_handle: Handle,
    pub processes: Seq<ProcessView>,
    pub service_ports: Seq<PortModel>,
    pub registry: Seq<ServiceEntryModel>,
    pub app_state: u32,
    pub gpu_handoff: Seq<Seq<u32>>,
    pub hid_state: HidInputState,
    pub events: Seq<EventModel>,
    pub files: Seq<FileModel>,
    pub vfs: VfsModel,
    pub last_ipc: Option<(u16, Handle, u32)>,
    pub last_service_imm24: Option<u32>,
    pub last_error: Option<StructuredError>,
    pub pending_wakes: Seq<PendingWake>,
}

impl View for Kernel {
    type V = KernelModel;

    open spec fn view(&self) -> KernelModel {
        KernelModel {
            svc_log: self.svc_log@,
            ticks: self.ticks,
            next_handle: self.next_handle,
            processes: Seq::new(self.processes@.len(), |i: int| self.processes@[i]@),
            service_ports: Seq::new(self.service_ports@.len(), |i: int| self.service_ports@[i]@),
            registry: self.registry@,
            app_state: self.app_state,
            gpu_handoff: Seq::new(self.gpu_handoff@.len(), |i: int| self.gpu_handoff@[i]@),
            hid_state: self.hid_state,
            events: Seq::new(
                self.events@.len(),
                |i: int| EventModel { name: self.events@[i].name@, signaled: self.events@[i].signaled },
            ),
            files: Seq::new(self.files@.len(), |i: int| self.files@[i]@),
            vfs: self.vfs@,
            last_ipc: self.last_ipc,
            last_service_imm24: self.last_service_imm24,
            last_error: self.last_error,
            pending_wakes: self.pending_wakes@,
        }
    }
}

} // verus!

use vstd::prelude::*;
use std::collections::VecDeque;
use crate::diagnostics::StructuredError;
use crate::fs::{VfsModel, VirtualFileSystem};
use crate::ipc::{parsed_message, Handle, IpcMessage, MessageModel, ProcessId};
use crate::kernel::{
    IpcRequest, IpcResponse, Kernel, KernelModel, PendingWake, ProcessView, RequestModel,
    ResponseModel, ServiceCall, ServiceEvent, FIRST_HANDLE, KERNEL_PROCESS_ID, WAKE_DELAY_CYCLES,
};
use crate::loader::romfs::RomFs;
use crate::services::{
    bootstrap_registry, HidInputState, ServiceEntry, ServiceEntryModel, ServiceRegistry,
};

verus! {

/// The message that stands in for words that do not parse.
pub open spec fn empty_message() -> MessageModel {
    MessageModel { command_id: 0, normal_words: Seq::empty(), descriptors: Seq::empty() }
}

/// Index of the first process at or after `from` that is not blocked and has a
/// request queued.
pub open spec fn first_ready(ps: Seq<ProcessView>, from: int) -> Option<int>
    decreases ps.len() - from,
{
    if from < 0 || from >= ps.len() {
        None
    } else if !ps[from].blocked && ps[from].requests.len() > 0 {
        Some(from)
    } else {
        first_ready(ps, from + 1)
    }
}

impl KernelModel {
    /// The kernel before any service is registered.
    pub open spec fn bare() -> KernelModel {
        KernelModel {
            svc_log: Seq::empty(),
            ticks: 0,
            next_handle: FIRST_HANDLE,
            processes: Seq::empty(),
            service_ports: Seq::empty(),
            registry: bootstrap_registry(),
            app_state: 1,
            gpu_handoff: Seq::empty(),
            hid_state: HidInputState { buttons: 0, touch_x: 0, touch_y: 0 },
            events: Seq::empty(),
            files: Seq::empty(),
            vfs: VfsModel { romfs: None },
            last_ipc: None,
            last_service_imm24: None,
            last_error: None,
            pending_wakes: Seq::empty(),
        }
    }

    /// The kernel after the ports of the first `count` of the given services
    /// were registered for a process, in order.
    pub open spec fn ports_registered(
        self,
        pid: ProcessId,
        services: Seq<ServiceEntryModel>,
        count: int,
    ) -> KernelModel
        decreases count,
    {
        if count <= 0 {
            self
        } else {
            self.ports_registered(pid, services, count - 1).port_registered(
                pid,
                services[count - 1].name,
            )
        }
    }

    /// The kernel of a booted system: the kernel process owns a port for each
    /// built-in service.
    pub open spec fn booted() -> KernelModel {
        Self::bare().ensured(KERNEL_PROCESS_ID).ports_registered(
            KERNEL_PROCESS_ID,
            bootstrap_registry(),
            bootstrap_registry().len() as int,
        )
    }

    /// The kernel after words were queued as a request of a process on a
    /// session. Words that do not parse are queued as an empty message.
    pub open spec fn queued(self, pid: ProcessId, session_handle: Handle, words: Seq<u32>) -> KernelModel {
        let ensured = self.ensured(pid);
        match ensured.index_of(pid) {
            None => ensured,
            Some(i) => ensured.with_process(
                i,
                ProcessView {
                    requests: ensured.processes[i].requests.push(
                        RequestModel {
                            session_handle,
                            message: match parsed_message(words) {
                                Some(message) => message,
                                None => empty_message(),
                            },
                        },
                    ),
                    ..ensured.processes[i]
                },
            ),
        }
    }

    /// The process whose request the pump takes next: the first, in order of
    /// process id, that is not blocked and has a request queued.
    pub open spec fn ready(self) -> Option<int> {
        first_ready(self.processes, 0)
    }

    /// The kernel after an answer was delivered to a process.
    pub open spec fn answered(self, pid: ProcessId, result_code: u32, words: Seq<u32>) -> KernelModel {
        match self.index_of(pid) {
            None => self,
            Some(i) => self.with_process(
                i,
                ProcessView {
                    responses: self.processes[i].responses.push(ResponseModel { result_code, words }),
                    last_result_code: result_code,
                    ..self.processes[i]
                },
            ),
        }
    }

    /// One step of the pump on the process at `index`: its oldest request leaves
    /// its queue and is dispatched, the dispatch is remembered, and the answer
    /// joins the answers of the process.
    pub open spec fn pumped_at(self, index: int) -> KernelModel {
        let process = self.processes[index];
        let request = process.requests[0];
        let outcome = self.with_process(
            index,
            ProcessView { requests: process.requests.drop_first(), ..process },
        ).dispatched(process.pid, request);
        (KernelModel {
            last_ipc: Some(
                (request.message.command_id, request.session_handle, outcome.result_code),
            ),
            ..outcome.kernel
        }).answered(process.pid, outcome.result_code, outcome.words)
    }

    /// The kernel after the pump ran with a budget: one request per step, until
    /// the budget is used up or no process is ready.
    pub open spec fn pumped(self, budget: nat) -> KernelModel
        decreases budget,
    {
        if budget == 0 {
            self
        } else {
            match self.ready() {
                None => self,
                Some(index) => self.pumped_at(index).pumped((budget - 1) as nat),
            }
        }
    }

    /// The kernel after a process asked to wait for IPC: with nothing queued it
    /// is blocked and a wake-up is asked for; else the pump runs one step.
    pub open spec fn sync_requested(self, pid: ProcessId) -> KernelModel {
        match self.index_of(pid) {
            None => self.pumped(1),
            Some(i) => if self.processes[i].requests.len() == 0 {
                KernelModel {
                    pending_wakes: self.pending_wakes.push(
                        PendingWake { pid, delay_cycles: WAKE_DELAY_CYCLES },
                    ),
                    ..self.with_process(i, ProcessView { blocked: true, ..self.processes[i] })
                }
            } else {
                self.pumped(1)
            },
        }
    }

    /// The call that a software interrupt number selects.
    pub open spec fn call_of(imm24: u32) -> ServiceCall {
        if imm24 == 0x00 {
            ServiceCall::Yield
        } else if imm24 == 0x01 {
            ServiceCall::GetTick
        } else if imm24 == 0x23 {
            ServiceCall::CreateEvent
        } else if imm24 == 0x27 {
            ServiceCall::DuplicateHandle
        } else if imm24 == 0x29 {
            ServiceCall::CloseHandle
        } else if imm24 == 0x32 {
            ServiceCall::SendSyncRequest
        } else {
            ServiceCall::Unknown(imm24)
        }
    }

    /// The kernel after a system call of a process.
    pub open spec fn syscalled(self, pid: ProcessId, imm24: u32, args: Seq<u32>) -> KernelModel {
        let ensured = self.ensured(pid);
        if imm24 == 0x23 {
            ensured.event_created(pid, "svc:event"@)
        } else if imm24 == 0x27 && args.len() > 0 {
            match ensured.lookup(pid, args[0]) {
                Some(object) => ensured.allocated(pid, object),
                None => ensured,
            }
        } else if imm24 == 0x29 && args.len() > 0 {
            ensured.closed(pid, args[0])
        } else if imm24 == 0x32 {
            ensured.sync_requested(pid)
        } else {
            ensured
        }
    }

    /// The kernel after a software interrupt: the call is made for the kernel
    /// process and logged.
    pub open spec fn swi_handled(self, imm24: u32) -> KernelModel {
        let called = self.syscalled(KERNEL_PROCESS_ID, imm24, Seq::empty());
        KernelModel {
            svc_log: called.svc_log.push(
                ServiceEvent { call: Self::call_of(imm24), argument: imm24 },
            ),
            last_service_imm24: Some(imm24),
            ..called
        }
    }

    /// The kernel after the scheduler woke a process.
    pub open spec fn woken(self, pid: ProcessId) -> KernelModel {
        match self.index_of(pid) {
            None => self,
            Some(i) => self.with_process(i, ProcessView { blocked: false, ..self.processes[i] }),
        }
    }
}

impl Kernel {
    fn bare() -> (kernel: Self)
        ensures
            kernel@ == KernelModel::bare(),
    {
        let kernel = Kernel {
            svc_log: Vec::new(),
            ticks: 0,
            next_handle: FIRST_HANDLE,
            processes: Vec::new(),
            service_ports: Vec::new(),
            registry: ServiceRegistry::bootstrap(),
            app_state: 1,
            gpu_handoff: VecDeque::new(),
            hid_state: HidInputState { buttons: 0, touch_x: 0, touch_y: 0 },
            events: Vec::new(),
            files: Vec::new(),
            vfs: VirtualFileSystem::new(),
            last_ipc: None,
            last_service_imm24: None,
            last_error: None,
            pending_wakes: Vec::new(),
        };
        assert(kernel@.processes =~= Seq::empty());
        assert(kernel@.service_ports =~= Seq::empty());
        assert(kernel@.gpu_handoff =~= Seq::empty());
        assert(kernel@.events =~= Seq::empty());
        assert(kernel@.files =~= Seq::empty());
        kernel
    }

    /// A booted kernel: the kernel process owns the ports of the built-in
    /// services.
    pub fn new() -> (kernel: Self)
        ensures
            kernel@ == KernelModel::booted(),
    {
        let mut kernel = Kernel::bare();
        kernel.ensure_process(KERNEL_PROCESS_ID);
        kernel.bootstrap_services(KERNEL_PROCESS_ID);
        kernel
    }

    fn bootstrap_services(&mut self, pid: ProcessId)
        ensures
            final(self)@ == old(self)@.ports_registered(
                pid,
                old(self)@.registry,
                old(self)@.registry.len() as int,
            ),
    {
        let services: Vec<ServiceEntry> = self.registry.iter();
        let ghost model = self@.registry;
        let mut i: usize = 0;
        while i < services.len()
            invariant
                i <= services@.len(),
                services@.len() == model.len(),
                forall|k: int| 0 <= k < services@.len() ==> (#[trigger] services@[k])@ == model[k],
                self@ == old(self)@.ports_registered(pid, model, i as int),
            decreases services@.len() - i,
        {
            let _ = self.register_service_port(
                pid,
                services[i].name.as_str(),
                services[i].definition.max_sessions,
            );
            assert(services@[i as int]@ == model[i as int]);
            i += 1;
        }
    }

    /// Brings the kernel back to its booted state.
    pub fn reset_runtime(&mut self)
        ensures
            final(self)@ == KernelModel::booted(),
    {
        *self = Kernel::new();
    }

    pub fn tick(&mut self, cycles: u32)
        ensures
            final(self)@ == (KernelModel {
                ticks: if old(self)@.ticks + cycles > u64::MAX {
                    u64::MAX
                } else {
                    (old(self)@.ticks + cycles) as u64
                },
                ..old(self)@
            }),
    {
        self.ticks = self.ticks.saturating_add(cycles as u64);
    }

    /// Handles a software interrupt with the given number.
    pub fn handle_swi(&mut self, imm24: u32)
        ensures
            final(self)@ == old(self)@.swi_handled(imm24),
    {
        let none: Vec<u32> = Vec::new();
        let call = self.dispatch_syscall(KERNEL_PROCESS_ID, imm24, none.as_slice());
        self.svc_log.push(ServiceEvent { call, argument: imm24 });
        self.last_service_imm24 = Some(imm24);
    }

    fn ready_position(&self) -> (index: Option<usize>)
        ensures
            match index {
                Some(i) => i < self@.processes.len() && self@.ready() == Some(i as int)
                    && self@.processes[i as int].requests.len() > 0,
                None => self@.ready() is None,
            },
    {
        let mut i: usize = 0;
        while i < self.processes.len()
            invariant
                i <= self.processes@.len(),
                first_ready(self@.processes, 0) == first_ready(self@.processes, i as int),
            decreases self.processes@.len() - i,
        {
            if !self.processes[i].blocked && self.processes[i].pending_requests.len() > 0 {
                return Some(i);
            }
            i += 1;
        }
        None
    }

    fn take_request(&mut self, index: usize) -> (request: IpcRequest)
        requires
            index < old(self)@.processes.len(),
            old(self)@.processes[index as int].requests.len() > 0,
        ensures
            request@ == old(self)@.processes[index as int].requests[0],
            final(self)@ == old(self)@.with_process(
                index as int,
                ProcessView {
                    requests: old(self)@.processes[index as int].requests.drop_first(),
                    ..old(self)@.processes[index as int]
                },
            ),
    {
        let taken = self.processes[index].pending_requests.pop_front();
        assert(self@.processes =~= old(self)@.processes.update(
            index as int,
            ProcessView {
                requests: old(self)@.processes[index as int].requests.drop_first(),
                ..old(self)@.processes[index as int]
            },
        )) by {
            assert(self@.processes[index as int].requests =~= old(self)@.processes[index as int].requests.drop_first());
        }
        taken.unwrap()
    }

    fn deliver(&mut self, pid: ProcessId, result_code: u32, words: Vec<u32>)
        ensures
            final(self)@ == old(self)@.answered(pid, result_code, words@),
    {
        match self.process_position(pid) {
            None => {},
            Some(i) => {
                let ghost model = ResponseModel { result_code, words: words@ };
                self.processes[i].last_result_code = result_code;
                self.processes[i].pending_responses.push_back(IpcResponse { result_code, words });
                assert(self@.processes =~= old(self)@.processes.update(
                    i as int,
                    ProcessView {
                        responses: old(self)@.processes[i as int].responses.push(model),
                        last_result_code: result_code,
                        ..old(self)@.processes[i as int]
                    },
                )) by {
                    assert(self@.processes[i as int].responses =~= old(self)@.processes[i as int].responses.push(
                        model,
                    ));
                }
            },
        }
    }

    /// Dispatches up to `budget` queued requests, one per step, each from the
    /// first process in order of id that is not blocked and has one queued.
    pub fn pump_ipc_events(&mut self, budget: usize)
        ensures
            final(self)@ == old(self)@.pumped(budget as nat),
    {
        let mut done: usize = 0;
        while done < budget
            invariant
                done <= budget,
                old(self)@.pumped(budget as nat) == self@.pumped((budget - done) as nat),
            decreases budget - done,
        {
            let index = match self.ready_position() {
                Some(index) => index,
                None => {
                    return ;
                },
            };
            let pid = self.processes[index].pid;
            let request = self.take_request(index);
            let command_id = request.message.command_id;
            let handle_id = request.session_handle;
            let (result_code, words) = self.dispatch_request(pid, &request);
            self.last_ipc = Some((command_id, handle_id, result_code));
            self.deliver(pid, result_code, words);
            done += 1;
        }
    }

    /// Queues words as a request of a process on a session.
    pub fn queue_ipc_command(&mut self, pid: ProcessId, session_handle: Handle, words: Vec<u32>)
        ensures
            final(self)@ == old(self)@.queued(pid, session_handle, words@),
    {
        self.ensure_process(pid);
        let message = match IpcMessage::parse(words.as_slice()) {
            Some(message) => message,
            None => IpcMessage {
                command_id: 0,
                normal_words: Vec::new(),
                descriptors: Vec::new(),
            },
        };
        let ghost ensured = self@;
        match self.process_position(pid) {
            None => {},
            Some(i) => {
                let request = IpcRequest { session_handle, message };
                let ghost model = request@;
                self.processes[i].pending_requests.push_back(request);
                assert(self@.processes =~= ensured.processes.update(
                    i as int,
                    ProcessView {
                        requests: ensured.processes[i as int].requests.push(model),
                        ..ensured.processes[i as int]
                    },
                )) by {
                    assert(self@.processes[i as int].requests =~= ensured.processes[i as int].requests.push(
                        model,
                    ));
                }
            },
        }
    }

    fn request_sync(&mut self, pid: ProcessId)
        ensures
            final(self)@ == old(self)@.sync_requested(pid),
    {
        match self.process_position(pid) {
            None => {
                self.pump_ipc_events(1);
            },
            Some(i) => {
                if self.processes[i].pending_requests.len() == 0 {
                    self.processes[i].blocked = true;
                    self.pending_wakes.push(PendingWake { pid, delay_cycles: WAKE_DELAY_CYCLES });
                    assert(self@.processes =~= old(self)@.processes.update(
                        i as int,
                        ProcessView { blocked: true, ..old(self)@.processes[i as int] },
                    ));
                } else {
                    self.pump_ipc_events(1);
                }
            },
        }
    }

    /// Makes a system call for a process and says which call it was.
    pub fn dispatch_syscall(&mut self, pid: ProcessId, imm24: u32, args: &[u32]) -> (call:
        ServiceCall)
        ensures
            call == KernelModel::call_of(imm24),
            final(self)@ == old(self)@.syscalled(pid, imm24, args@),
    {
        self.ensure_process(pid);
        if imm24 == 0x00 {
            ServiceCall::Yield
        } else if imm24 == 0x01 {
            ServiceCall::GetTick
        } else if imm24 == 0x23 {
            let _ = self.create_event(pid, "svc:event");
            ServiceCall::CreateEvent
        } else if imm24 == 0x27 {
            if args.len() > 0 {
                let _ = self.duplicate_handle(pid, args[0]);
            }
            ServiceCall::DuplicateHandle
        } else if imm24 == 0x29 {
            if args.len() > 0 {
                let _ = self.close_handle(pid, args[0]);
            }
            ServiceCall::CloseHandle
        } else if imm24 == 0x32 {
            self.request_sync(pid);
            ServiceCall::SendSyncRequest
        } else {
            ServiceCall::Unknown(imm24)
        }
    }

    /// Takes the oldest answer of a process.
    pub fn pop_ipc_response(&mut self, pid: ProcessId) -> (response: Option<IpcResponse>)
        ensures
            match old(self)@.index_of(pid) {
                Some(i) => if old(self)@.processes[i].responses.len() > 0 {
                    response matches Some(r) && r@ == old(self)@.processes[i].responses[0]
                        && final(self)@ == old(self)@.with_process(
                        i,
                        ProcessView {
                            responses: old(self)@.processes[i].responses.drop_first(),
                            ..old(self)@.processes[i]
                        },
                    )
                } else {
                    response is None && final(self)@ == old(self)@
                },
                None => response is None && final(self)@ == old(self)@,
            },
    {
        match self.process_position(pid) {
            None => None,
            Some(i) => {
                let response = self.processes[i].pending_responses.pop_front();
                match &response {
                    Some(_) => {
                        assert(self@.processes =~= old(self)@.processes.update(
                            i as int,
                            ProcessView {
                                responses: old(self)@.processes[i as int].responses.drop_first(),
                                ..old(self)@.processes[i as int]
                            },
                        )) by {
                            assert(self@.processes[i as int].responses =~= old(self)@.processes[i as int].responses.drop_first());
                        }
                    },
                    None => {
                        assert(self@.processes =~= old(self)@.processes) by {
                            assert(self@.processes[i as int].responses =~= old(self)@.processes[i as int].responses);
                        }
                    },
                }
                response
            },
        }
    }

    /// The result code of the last answer to a process.
    pub fn last_result_code(&self, pid: ProcessId) -> (code: Option<u32>)
        ensures
            code == match self@.index_of(pid) {
                Some(i) => Some(self@.processes[i].last_result_code),
                None => None,
            },
    {
        match self.process_position(pid) {
            Some(i) => Some(self.processes[i].last_result_code),
            None => None,
        }
    }

    pub fn last_service_call(&self) -> (event: Option<ServiceEvent>)
        ensures
            event == if self@.svc_log.len() > 0 {
                Some(self@.svc_log.last())
            } else {
                None
            },
    {
        if self.svc_log.len() > 0 {
            Some(self.svc_log[self.svc_log.len() - 1])
        } else {
            None
        }
    }

    pub fn service_call_count(&self) -> (count: usize)
        ensures
            count == self@.svc_log.len(),
    {
        self.svc_log.len()
    }

    pub fn take_last_ipc_dispatch(&mut self) -> (dispatch: Option<(u16, Handle, u32)>)
        ensures
            dispatch == old(self)@.last_ipc,
            final(self)@ == (KernelModel { last_ipc: None, ..old(self)@ }),
    {
        let dispatch = self.last_ipc;
        self.last_ipc = None;
        dispatch
    }

    pub fn take_last_service_imm24(&mut self) -> (imm24: Option<u32>)
        ensures
            imm24 == old(self)@.last_service_imm24,
            final(self)@ == (KernelModel { last_service_imm24: None, ..old(self)@ }),
    {
        let imm24 = self.last_service_imm24;
        self.last_service_imm24 = None;
        imm24
    }

    pub fn report_error(&mut self, err: StructuredError)
        ensures
            final(self)@ == (KernelModel { last_error: Some(err), ..old(self)@ }),
    {
        self.last_error = Some(err);
    }

    pub fn take_last_error(&mut self) -> (err: Option<StructuredError>)
        ensures
            err == old(self)@.last_error,
            final(self)@ == (KernelModel { last_error: None, ..old(self)@ }),
    {
        let err = self.last_error;
        self.last_error = None;
        err
    }

    pub fn mount_romfs(&mut self, romfs: RomFs)
        ensures
            final(self)@ == (KernelModel {
                vfs: VfsModel { romfs: Some(romfs@) },
                ..old(self)@
            }),
    {
        self.vfs.mount_romfs(romfs);
    }

    /// Hands out the FIFO fragments that the GPU broker queued, oldest first.
    pub fn drain_gpu_handoff(&mut self) -> (fragments: Vec<Vec<u32>>)
        ensures
            fragments@.len() == old(self)@.gpu_handoff.len(),
            forall|i: int| 0 <= i < fragments@.len() ==> (#[trigger] fragments@[i])@ == old(self)@.gpu_handoff[i],
            final(self)@ == (KernelModel { gpu_handoff: Seq::empty(), ..old(self)@ }),
    {
        let ghost queued = self@.gpu_handoff;
        let mut fragments: Vec<Vec<u32>> = Vec::new();
        while self.gpu_handoff.len() > 0
            invariant
                fragments@.len() + self@.gpu_handoff.len() == queued.len(),
                forall|i: int|
                    0 <= i < fragments@.len() ==> (#[trigger] fragments@[i])@ == queued[i],
                forall|i: int|
                    0 <= i < self@.gpu_handoff.len() ==> #[trigger] self@.gpu_handoff[i]
                        == queued[fragments@.len() + i],
                self@ == (KernelModel { gpu_handoff: self@.gpu_handoff, ..old(self)@ }),
            decreases self@.gpu_handoff.len(),
        {
            let ghost rest = self@.gpu_handoff;
            let ghost taken = fragments@.len();
            match self.gpu_handoff.pop_front() {
                Some(fragment) => {
                    assert(fragment@ == rest[0]);
                    fragments.push(fragment);
                    assert forall|i: int| 0 <= i < self@.gpu_handoff.len() implies #[trigger] self@.gpu_handoff[i]
                        == queued[fragments@.len() + i] by {
                        assert(self@.gpu_handoff[i] == rest[i + 1]);
                    }
                },
                None => {},
            }
        }
        assert(self@.gpu_handoff =~= Seq::empty());
        fragments
    }

    /// Unblocks a process that the scheduler woke.
    pub fn on_scheduler_wake(&mut self, pid: ProcessId)
        ensures
            final(self)@ == old(self)@.woken(pid),
    {
        match self.process_position(pid) {
            None => {},
            Some(i) => {
                self.processes[i].blocked = false;
                assert(self@.processes =~= old(self)@.processes.update(
                    i as int,
                    ProcessView { blocked: false, ..old(self)@.processes[i as int] },
                ));
            },
        }
    }

    /// Hands out the wake-ups that the kernel asks the scheduler for.
    pub fn take_pending_schedule_events(&mut self) -> (wakes: Vec<PendingWake>)
        ensures
            wakes@ == old(self)@.pending_wakes,
            final(self)@ == (KernelModel { pending_wakes: Seq::empty(), ..old(self)@ }),
    {
        let mut wakes: Vec<PendingWake> = Vec::new();
        std::mem::swap(&mut wakes, &mut self.pending_wakes);
        wakes
    }
}

impl Default for Kernel {
    fn default() -> (kernel: Self)
        ensures
            kernel@ == KernelModel::booted(),
    {
        Kernel::new()
    }
}

/// The process found ready is the first one that is, and none is found only
/// where none is ready.
pub proof fn lemma_first_ready(ps: Seq<ProcessView>, from: int)
    requires
        0 <= from,
    ensures
        match first_ready(ps, from) {
            Some(i) => from <= i < ps.len() && !ps[i].blocked && ps[i].requests.len() > 0
                && forall|k: int|
                from <= k < i ==> (#[trigger] ps[k]).blocked || ps[k].requests.len() == 0,
            None => forall|k: int|
                from <= k < ps.len() ==> (#[trigger] ps[k]).blocked || ps[k].requests.len() == 0,
        },
    decreases ps.len() - from,
{
    if from < ps.len() && (ps[from].blocked || ps[from].requests.len() == 0) {
        lemma_first_ready(ps, from + 1);
    }
}

/// The pump is deterministic: among the processes that are not blocked and have
/// a request queued, it takes the one with the smallest process id, and it takes
/// the oldest request of that process. A kernel with no such process is left as
/// it is.
pub proof fn law_pump_takes_lowest_ready_process(k: KernelModel, budget: nat)
    requires
        k.well_formed(),
    ensures
        match k.ready() {
            Some(i) => 0 <= i < k.processes.len() && !k.processes[i].blocked
                && k.processes[i].requests.len() > 0 && forall|j: int|
                0 <= j < k.processes.len() && !(#[trigger] k.processes[j]).blocked
                    && k.processes[j].requests.len() > 0 ==> k.processes[i].pid
                    <= k.processes[j].pid,
            None => k.pumped(budget) == k,
        },
        budget > 0 && k.ready() is Some ==> k.pumped(budget) == k.pumped_at(
            k.ready()->Some_0,
        ).pumped((budget - 1) as nat),
{
    lemma_first_ready(k.processes, 0);
    match k.ready() {
        Some(i) => {
            assert forall|j: int|
                0 <= j < k.processes.len() && !(#[trigger] k.processes[j]).blocked
                    && k.processes[j].requests.len() > 0 implies k.processes[i].pid
                <= k.processes[j].pid by {
                if j > i {
                    assert(k.processes[i].pid < k.processes[j].pid);
                }
            }
        },
        None => {},
    }
}

} // verus!

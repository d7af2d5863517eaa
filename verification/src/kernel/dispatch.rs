use vstd::prelude::*;
use vstd::string::StringExecFns;
use crate::fs::{archive_prefix, normal_path, ArchiveHandle, ArchiveId, FileHandle, FileModel};
use crate::ipc::{
    packed_name, service_name_from_words, Handle, IpcEvent, IpcMessage, MessageModel, ProcessId,
    RESULT_INVALID_COMMAND, RESULT_INVALID_HANDLE, RESULT_NOT_FOUND, RESULT_OK,
};
use crate::kernel::{
    EventModel, IpcRequest, Kernel, KernelModel, KernelObject, PortModel, RequestModel,
    ServicePort,
};
use crate::pica::command::{encode_header, PicaCommandBufferPacket};
use crate::services::{definition_of, registered, HidInputState, ServiceDefinition, ServiceTarget};
use crate::report::{hex8, push_hex8};
use crate::text::lenient_text;

verus! {

/// The commands of the service broker.
#[derive(Debug, Clone, Copy, PartialEq, Eq)]
pub enum SrvCommand {
    RegisterService,
    GetServiceHandle,
}

impl SrvCommand {
    /// The command that an id names.
    pub open spec fn of(id: u16) -> Option<SrvCommand> {
        if id == 0x0001 {
            Some(SrvCommand::RegisterService)
        } else if id == 0x0005 {
            Some(SrvCommand::GetServiceHandle)
        } else {
            None
        }
    }

    pub fn from_id(id: u16) -> (command: Option<Self>)
        ensures
            command == Self::of(id),
    {
        if id == 0x0001 {
            Some(SrvCommand::RegisterService)
        } else if id == 0x0005 {
            Some(SrvCommand::GetServiceHandle)
        } else {
            None
        }
    }
}

/// The commands of the file-system service.
#[derive(Debug, Clone, Copy, PartialEq, Eq)]
pub enum FsCommand {
    OpenArchive,
    OpenFile,
    ReadFile,
}

impl FsCommand {
    /// The command that an id names.
    pub open spec fn of(id: u16) -> Option<FsCommand> {
        if id == 0x0001 {
            Some(FsCommand::OpenArchive)
        } else if id == 0x0002 {
            Some(FsCommand::OpenFile)
        } else if id == 0x0003 {
            Some(FsCommand::ReadFile)
        } else {
            None
        }
    }

    pub fn from_id(id: u16) -> (command: Option<Self>)
        ensures
            command == Self::of(id),
    {
        if id == 0x0001 {
            Some(FsCommand::OpenArchive)
        } else if id == 0x0002 {
            Some(FsCommand::OpenFile)
        } else if id == 0x0003 {
            Some(FsCommand::ReadFile)
        } else {
            None
        }
    }
}

/// The commands of the application manager.
#[derive(Debug, Clone, Copy, PartialEq, Eq)]
pub enum AptCommand {
    GetAppState,
    SetAppState,
}

impl AptCommand {
    /// The command that an id names.
    pub open spec fn of(id: u16) -> Option<AptCommand> {
        if id == 0x0001 {
            Some(AptCommand::GetAppState)
        } else if id == 0x0002 {
            Some(AptCommand::SetAppState)
        } else {
            None
        }
    }

    pub fn from_id(id: u16) -> (command: Option<Self>)
        ensures
            command == Self::of(id),
    {
        if id == 0x0001 {
            Some(AptCommand::GetAppState)
        } else if id == 0x0002 {
            Some(AptCommand::SetAppState)
        } else {
            None
        }
    }
}

/// The commands of the GPU broker.
#[derive(Debug, Clone, Copy, PartialEq, Eq)]
pub enum GspCommand {
    SetFrameClearColor,
    QueuePixel,
}

impl GspCommand {
    /// The command that an id names.
    pub open spec fn of(id: u16) -> Option<GspCommand> {
        if id == 0x0001 {
            Some(GspCommand::SetFrameClearColor)
        } else if id == 0x0002 {
            Some(GspCommand::QueuePixel)
        } else {
            None
        }
    }

    pub fn from_id(id: u16) -> (command: Option<Self>)
        ensures
            command == Self::of(id),
    {
        if id == 0x0001 {
            Some(GspCommand::SetFrameClearColor)
        } else if id == 0x0002 {
            Some(GspCommand::QueuePixel)
        } else {
            None
        }
    }
}

/// The commands of the input service.
#[derive(Debug, Clone, Copy, PartialEq, Eq)]
pub enum HidCommand {
    Initialize,
    GetInputState,
    SetInputState,
}

impl HidCommand {
    /// The command that an id names.
    pub open spec fn of(id: u16) -> Option<HidCommand> {
        if id == 0x0001 {
            Some(HidCommand::Initialize)
        } else if id == 0x000A {
            Some(HidCommand::GetInputState)
        } else if id == 0x000B {
            Some(HidCommand::SetInputState)
        } else {
            None
        }
    }

    pub fn from_id(id: u16) -> (command: Option<Self>)
        ensures
            command == Self::of(id),
    {
        if id == 0x0001 {
            Some(HidCommand::Initialize)
        } else if id == 0x000A {
            Some(HidCommand::GetInputState)
        } else if id == 0x000B {
            Some(HidCommand::SetInputState)
        } else {
            None
        }
    }
}

/// Index of the first port at or after `from` with the given name.
pub open spec fn find_port(ports: Seq<PortModel>, name: Seq<char>, from: int) -> Option<int>
    decreases ports.len() - from,
{
    if from < 0 || from >= ports.len() {
        None
    } else if ports[from].name == name {
        Some(from)
    } else {
        find_port(ports, name, from + 1)
    }
}

/// The ports with one more: it takes the place of a port with the same name,
/// else it is appended.
pub open spec fn with_port(ports: Seq<PortModel>, port: PortModel) -> Seq<PortModel> {
    match find_port(ports, port.name, 0) {
        Some(i) => ports.update(i, port),
        None => ports.push(port),
    }
}

/// The path that a numeric file id stands for: a slash and the id as eight
/// lower-case hexadecimal digits.
pub open spec fn hex_path(word: u32) -> Seq<char> {
    "/"@ + hex8(word)
}

/// The name that the first two words of a payload pack.
pub open spec fn payload_name(words: Seq<u32>) -> Seq<char> {
    lenient_text(packed_name(words.subrange(0, 2), 8))
}

/// The first word of a payload, or `default` where there is none.
pub open spec fn first_or(words: Seq<u32>, default: u32) -> u32 {
    if words.len() > 0 {
        words[0]
    } else {
        default
    }
}

/// The kernel after a request was dispatched, and the answer.
pub struct Dispatched {
    pub kernel: KernelModel,
    pub result_code: u32,
    pub words: Seq<u32>,
}

impl KernelModel {
    pub open spec fn answer(self, result_code: u32, words: Seq<u32>) -> Dispatched {
        Dispatched { kernel: self, result_code, words }
    }

    /// The kernel after a service port was registered for a process: the port's
    /// handle is allocated in the process and the port is entered under its name.
    /// The target is the registered one, or the broker where none is.
    pub open spec fn port_registered(self, pid: ProcessId, name: Seq<char>) -> KernelModel {
        let ensured = self.ensured(pid);
        let target = match definition_of(ensured.registry, name) {
            Some(definition) => definition.target,
            None => ServiceTarget::Srv,
        };
        let allocated = ensured.allocated(pid, KernelObject::Port(target));
        KernelModel {
            service_ports: with_port(
                allocated.service_ports,
                PortModel { name, pid, handle: self.next_handle },
            ),
            ..allocated
        }
    }

    /// The service that a connection by name reaches: the target of the port
    /// registered under the name, as long as its owner still holds it.
    pub open spec fn port_target(self, name: Seq<char>) -> Option<ServiceTarget> {
        match find_port(self.service_ports, name, 0) {
            None => None,
            Some(i) => match self.lookup(self.service_ports[i].pid, self.service_ports[i].handle) {
                Some(KernelObject::Port(target)) => Some(target),
                _ => None,
            },
        }
    }

    /// The kernel after a process connected to a service by name: a session
    /// handle is allocated in the process, where the service is reached.
    pub open spec fn connected(self, pid: ProcessId, name: Seq<char>) -> KernelModel {
        let ensured = self.ensured(pid);
        match ensured.port_target(name) {
            Some(target) => ensured.allocated(pid, KernelObject::Session(target)),
            None => ensured,
        }
    }

    /// The kernel after an event was created for a process.
    pub open spec fn event_created(self, pid: ProcessId, name: Seq<char>) -> KernelModel {
        (KernelModel {
            events: self.events.push(EventModel { name, signaled: false }),
            ..self
        }).allocated(pid, KernelObject::Event(self.events.len() as usize))
    }

    /// The service broker. Command 1 registers a service under the name in the
    /// payload and answers with its port; command 5 connects to the service named
    /// in the payload and answers with a session.
    pub open spec fn srv_dispatched(self, pid: ProcessId, msg: MessageModel) -> Dispatched {
        let words = msg.normal_words;
        if msg.command_id == 0x0001 {
            if words.len() < 3 {
                self.answer(RESULT_INVALID_COMMAND, Seq::empty())
            } else {
                (KernelModel {
                    registry: registered(
                        self.registry,
                        payload_name(words),
                        ServiceDefinition { target: ServiceTarget::Srv, max_sessions: words[2] },
                    ),
                    ..self
                }).port_registered(pid, payload_name(words)).answer(
                    RESULT_OK,
                    seq![self.next_handle],
                )
            }
        } else if msg.command_id == 0x0005 {
            if words.len() < 2 {
                self.answer(RESULT_INVALID_COMMAND, Seq::empty())
            } else if self.ensured(pid).port_target(payload_name(words)) is Some {
                self.connected(pid, payload_name(words)).answer(RESULT_OK, seq![self.next_handle])
            } else {
                self.connected(pid, payload_name(words)).answer(RESULT_NOT_FOUND, Seq::empty())
            }
        } else {
            self.answer(RESULT_INVALID_COMMAND, Seq::empty())
        }
    }

    /// The file that the file-system service opens for a numeric id in an
    /// archive: the id's path under the prefix of the archive or, where an
    /// archive other than the read-only file system does not have it, the id's
    /// path itself.
    pub open spec fn file_for(self, archive: ArchiveHandle, id: u32) -> Option<FileModel> {
        match self.vfs.file(archive, archive_prefix(archive.archive) + normal_path(hex_path(id))) {
            Some(file) => Some(file),
            None => if archive.archive == ArchiveId::RomFs {
                None
            } else {
                self.vfs.file(archive, hex_path(id))
            },
        }
    }

    /// The file system. Command 1 opens an archive by numeric id, command 2 opens
    /// a file of an archive by numeric id, command 3 reads from a file and answers
    /// with the number of bytes read.
    pub open spec fn fs_dispatched(self, pid: ProcessId, msg: MessageModel) -> Dispatched {
        let words = msg.normal_words;
        if msg.command_id == 0x0001 {
            match self.vfs.archive(first_or(words, 0)) {
                None => self.answer(RESULT_NOT_FOUND, Seq::empty()),
                Some(archive) => self.allocated(pid, KernelObject::Archive(archive)).answer(
                    RESULT_OK,
                    seq![self.next_handle],
                ),
            }
        } else if msg.command_id == 0x0002 {
            if words.len() < 2 {
                self.answer(RESULT_INVALID_COMMAND, Seq::empty())
            } else {
                match self.lookup(pid, words[0]) {
                    Some(KernelObject::Archive(archive)) => match self.file_for(archive, words[1]) {
                        None => self.answer(RESULT_NOT_FOUND, Seq::empty()),
                        Some(file) => (KernelModel { files: self.files.push(file), ..self }).allocated(
                            pid,
                            KernelObject::File(self.files.len() as usize),
                        ).answer(RESULT_OK, seq![self.next_handle]),
                    },
                    _ => self.answer(RESULT_INVALID_HANDLE, Seq::empty()),
                }
            }
        } else if msg.command_id == 0x0003 {
            if words.len() < 3 {
                self.answer(RESULT_INVALID_COMMAND, Seq::empty())
            } else {
                match self.lookup(pid, words[0]) {
                    Some(KernelObject::File(index)) => if index >= self.files.len() {
                        self.answer(RESULT_INVALID_HANDLE, Seq::empty())
                    } else {
                        match self.vfs.read(
                            self.files[index as int],
                            words[1] as usize,
                            words[2] as usize,
                        ) {
                            None => self.answer(RESULT_NOT_FOUND, Seq::empty()),
                            Some(data) => self.answer(RESULT_OK, seq![data.len() as u32]),
                        }
                    },
                    _ => self.answer(RESULT_INVALID_HANDLE, Seq::empty()),
                }
            }
        } else {
            self.answer(RESULT_INVALID_COMMAND, Seq::empty())
        }
    }

    /// The application manager. Command 1 answers with the stored state,
    /// command 2 stores the state in the payload.
    pub open spec fn apt_dispatched(self, msg: MessageModel) -> Dispatched {
        if msg.command_id == 0x0001 {
            self.answer(RESULT_OK, seq![self.app_state])
        } else if msg.command_id == 0x0002 {
            (KernelModel { app_state: first_or(msg.normal_words, self.app_state), ..self }).answer(
                RESULT_OK,
                seq![first_or(msg.normal_words, self.app_state)],
            )
        } else {
            self.answer(RESULT_INVALID_COMMAND, Seq::empty())
        }
    }

    /// The GPU broker. Command 1 hands a colour clear over to the GPU, command 2
    /// a point: a write of the position and a write of the colour.
    pub open spec fn gsp_dispatched(self, msg: MessageModel) -> Dispatched {
        let words = msg.normal_words;
        if msg.command_id == 0x0001 {
            (KernelModel {
                gpu_handoff: self.gpu_handoff.push(
                    seq![encode_header(0x0200, 1, false), first_or(words, 0xFF00_0000)],
                ),
                ..self
            }).answer(RESULT_OK, Seq::empty())
        } else if msg.command_id == 0x0002 {
            if words.len() < 3 {
                self.answer(RESULT_INVALID_COMMAND, Seq::empty())
            } else {
                (KernelModel {
                    gpu_handoff: self.gpu_handoff.push(
                        seq![
                            encode_header(0x0201, 1, false),
                            (words[1] << 16u32) | (words[0] & 0xFFFF),
                            encode_header(0x0202, 1, false),
                            words[2],
                        ],
                    ),
                    ..self
                }).answer(RESULT_OK, Seq::empty())
            }
        } else {
            self.answer(RESULT_INVALID_COMMAND, Seq::empty())
        }
    }

    /// The input service. Command 1 resets the input state, command 0xA answers
    /// with buttons and touch position, command 0xB stores them.
    pub open spec fn hid_dispatched(self, msg: MessageModel) -> Dispatched {
        let words = msg.normal_words;
        if msg.command_id == 0x0001 {
            (KernelModel {
                hid_state: HidInputState { buttons: 0, touch_x: 0, touch_y: 0 },
                ..self
            }).answer(RESULT_OK, seq![1u32])
        } else if msg.command_id == 0x000A {
            self.answer(
                RESULT_OK,
                seq![
                    self.hid_state.buttons,
                    self.hid_state.touch_x as u32,
                    self.hid_state.touch_y as u32,
                ],
            )
        } else if msg.command_id == 0x000B {
            if words.len() < 3 {
                self.answer(RESULT_INVALID_COMMAND, Seq::empty())
            } else {
                (KernelModel {
                    hid_state: HidInputState {
                        buttons: words[0],
                        touch_x: (words[1] & 0xFFFF) as u16,
                        touch_y: (words[2] & 0xFFFF) as u16,
                    },
                    ..self
                }).answer(RESULT_OK, Seq::empty())
            }
        } else {
            self.answer(RESULT_INVALID_COMMAND, Seq::empty())
        }
    }

    /// Dispatch of a request of a process: the session handle must resolve, in
    /// the process, to a session; the service of the session answers.
    pub open spec fn dispatched(self, pid: ProcessId, request: RequestModel) -> Dispatched {
        match self.lookup(pid, request.session_handle) {
            Some(KernelObject::Session(target)) => match target {
                ServiceTarget::Srv => self.srv_dispatched(pid, request.message),
                ServiceTarget::FsUser => self.fs_dispatched(pid, request.message),
                ServiceTarget::AptU => self.apt_dispatched(request.message),
                ServiceTarget::GspGpu => self.gsp_dispatched(request.message),
                ServiceTarget::HidUser => self.hid_dispatched(request.message),
            },
            _ => self.answer(RESULT_INVALID_HANDLE, Seq::empty()),
        }
    }
}

/// The path of a numeric file id.
pub fn numeric_path(word: u32) -> (path: String)
    ensures
        path@ == hex_path(word),
{
    let mut path = String::from_str("/");
    push_hex8(&mut path, word);
    path
}

fn one_word(word: u32) -> (words: Vec<u32>)
    ensures
        words@ == seq![word],
{
    let mut words: Vec<u32> = Vec::new();
    words.push(word);
    words
}

fn payload_name_of(words: &Vec<u32>) -> (name: String)
    requires
        words@.len() >= 2,
    ensures
        name@ == payload_name(words@),
{
    service_name_from_words(vstd::slice::slice_subrange(words.as_slice(), 0, 2))
}

impl Kernel {
    fn port_position(&self, name: &String) -> (index: Option<usize>)
        ensures
            match index {
                Some(i) => i < self@.service_ports.len() && find_port(
                    self@.service_ports,
                    name@,
                    0,
                ) == Some(i as int),
                None => find_port(self@.service_ports, name@, 0) is None,
            },
    {
        let mut i: usize = 0;
        while i < self.service_ports.len()
            invariant
                i <= self.service_ports@.len(),
                find_port(self@.service_ports, name@, 0) == find_port(
                    self@.service_ports,
                    name@,
                    i as int,
                ),
            decreases self.service_ports@.len() - i,
        {
            if self.service_ports[i].name == *name {
                return Some(i);
            }
            i += 1;
        }
        None
    }

    /// Registers the port of a service for a process and returns its handle.
    pub fn register_service_port(&mut self, pid: ProcessId, name: &str, max_sessions: u32) -> (handle:
        Handle)
        ensures
            handle == old(self)@.fresh_handle(),
            final(self)@ == old(self)@.port_registered(pid, name@),
    {
        self.ensure_process(pid);
        let target = match self.registry.definition(name) {
            Some(definition) => definition.target,
            None => ServiceTarget::Srv,
        };
        let handle = self.allocate_handle(pid, KernelObject::Port(target));
        let owned = name.to_owned();
        let port = ServicePort { name: name.to_owned(), pid, handle };
        let ghost model = port@;
        let ghost before = self@.service_ports;
        match self.port_position(&owned) {
            Some(i) => {
                self.service_ports[i] = port;
                assert(self@.service_ports =~= before.update(i as int, model));
            },
            None => {
                self.service_ports.push(port);
                assert(self@.service_ports =~= before.push(model));
            },
        }
        handle
    }

    fn port_target(&self, name: &str) -> (target: Option<ServiceTarget>)
        ensures
            target == self@.port_target(name@),
    {
        let owned = name.to_owned();
        match self.port_position(&owned) {
            None => None,
            Some(i) => match self.lookup_object(self.service_ports[i].pid, self.service_ports[i].handle) {
                Some(KernelObject::Port(target)) => Some(target),
                _ => None,
            },
        }
    }

    /// Connects a process to the service registered under `name` and returns the
    /// session handle.
    pub fn connect_to_service(&mut self, pid: ProcessId, name: &str) -> (handle: Option<Handle>)
        ensures
            handle == match old(self)@.ensured(pid).port_target(name@) {
                Some(_) => Some(old(self)@.fresh_handle()),
                None => None,
            },
            final(self)@ == old(self)@.connected(pid, name@),
    {
        self.ensure_process(pid);
        match self.port_target(name) {
            Some(target) => Some(self.allocate_handle(pid, KernelObject::Session(target))),
            None => None,
        }
    }

    /// Creates an event for a process and returns its handle.
    pub fn create_event(&mut self, pid: ProcessId, name: &str) -> (handle: Handle)
        ensures
            handle == old(self)@.fresh_handle(),
            final(self)@ == old(self)@.event_created(pid, name@),
    {
        let index = self.events.len();
        let ghost before = self@.events;
        self.events.push(IpcEvent { name: name.to_owned(), signaled: false });
        assert(self@.events =~= before.push(EventModel { name: name@, signaled: false }));
        self.allocate_handle(pid, KernelObject::Event(index))
    }

    fn push_file(&mut self, file: FileHandle) -> (index: usize)
        ensures
            index == old(self)@.files.len(),
            final(self)@ == (KernelModel { files: old(self)@.files.push(file@), ..old(self)@ }),
    {
        let index = self.files.len();
        let ghost before = self@.files;
        let ghost model = file@;
        self.files.push(file);
        assert(self@.files =~= before.push(model));
        index
    }

    fn push_handoff(&mut self, words: Vec<u32>)
        ensures
            final(self)@ == (KernelModel {
                gpu_handoff: old(self)@.gpu_handoff.push(words@),
                ..old(self)@
            }),
    {
        let ghost before = self@.gpu_handoff;
        let ghost model = words@;
        self.gpu_handoff.push_back(words);
        assert(self@.gpu_handoff =~= before.push(model));
    }

    fn dispatch_srv(&mut self, pid: ProcessId, msg: &IpcMessage) -> (answer: (u32, Vec<u32>))
        ensures
            answer.0 == old(self)@.srv_dispatched(pid, msg@).result_code,
            answer.1@ == old(self)@.srv_dispatched(pid, msg@).words,
            final(self)@ == old(self)@.srv_dispatched(pid, msg@).kernel,
    {
        match SrvCommand::from_id(msg.command_id) {
            Some(SrvCommand::RegisterService) => {
                if msg.normal_words.len() < 3 {
                    return (RESULT_INVALID_COMMAND, Vec::new());
                }
                let name = payload_name_of(&msg.normal_words);
                let max_sessions = msg.normal_words[2];
                self.registry.register(name.as_str(), ServiceTarget::Srv, max_sessions);
                let port = self.register_service_port(pid, name.as_str(), max_sessions);
                (RESULT_OK, one_word(port))
            },
            Some(SrvCommand::GetServiceHandle) => {
                if msg.normal_words.len() < 2 {
                    return (RESULT_INVALID_COMMAND, Vec::new());
                }
                let name = payload_name_of(&msg.normal_words);
                match self.connect_to_service(pid, name.as_str()) {
                    Some(handle) => (RESULT_OK, one_word(handle)),
                    None => (RESULT_NOT_FOUND, Vec::new()),
                }
            },
            None => (RESULT_INVALID_COMMAND, Vec::new()),
        }
    }

    fn open_file_for(&self, archive: ArchiveHandle, id: u32) -> (file: Option<FileHandle>)
        ensures
            match file {
                Some(f) => self@.file_for(archive, id) == Some(f@),
                None => self@.file_for(archive, id) is None,
            },
    {
        let path = numeric_path(id);
        let translated = self.vfs.translate_path(archive.archive, path.as_str());
        match self.vfs.open_file(archive, translated.as_str()) {
            Some(file) => Some(file),
            None => {
                if archive.archive == ArchiveId::RomFs {
                    return None;
                }
                self.vfs.open_file(archive, path.as_str())
            },
        }
    }

    fn dispatch_fs(&mut self, pid: ProcessId, msg: &IpcMessage) -> (answer: (u32, Vec<u32>))
        ensures
            answer.0 == old(self)@.fs_dispatched(pid, msg@).result_code,
            answer.1@ == old(self)@.fs_dispatched(pid, msg@).words,
            final(self)@ == old(self)@.fs_dispatched(pid, msg@).kernel,
    {
        match FsCommand::from_id(msg.command_id) {
            Some(FsCommand::OpenArchive) => {
                let archive_id = if msg.normal_words.len() > 0 {
                    msg.normal_words[0]
                } else {
                    0
                };
                match self.vfs.open_archive(archive_id) {
                    None => (RESULT_NOT_FOUND, Vec::new()),
                    Some(archive) => {
                        let handle = self.allocate_handle(pid, KernelObject::Archive(archive));
                        (RESULT_OK, one_word(handle))
                    },
                }
            },
            Some(FsCommand::OpenFile) => {
                if msg.normal_words.len() < 2 {
                    return (RESULT_INVALID_COMMAND, Vec::new());
                }
                let archive = match self.lookup_object(pid, msg.normal_words[0]) {
                    Some(KernelObject::Archive(archive)) => archive,
                    _ => {
                        return (RESULT_INVALID_HANDLE, Vec::new());
                    },
                };
                match self.open_file_for(archive, msg.normal_words[1]) {
                    None => (RESULT_NOT_FOUND, Vec::new()),
                    Some(file) => {
                        let index = self.push_file(file);
                        let handle = self.allocate_handle(pid, KernelObject::File(index));
                        (RESULT_OK, one_word(handle))
                    },
                }
            },
            Some(FsCommand::ReadFile) => {
                if msg.normal_words.len() < 3 {
                    return (RESULT_INVALID_COMMAND, Vec::new());
                }
                let index = match self.lookup_object(pid, msg.normal_words[0]) {
                    Some(KernelObject::File(index)) => index,
                    _ => {
                        return (RESULT_INVALID_HANDLE, Vec::new());
                    },
                };
                if index >= self.files.len() {
                    return (RESULT_INVALID_HANDLE, Vec::new());
                }
                let offset = msg.normal_words[1] as usize;
                let size = msg.normal_words[2] as usize;
                assert(self@.files[index as int] == self.files@[index as int]@);
                match self.vfs.read_file(&self.files[index], offset, size) {
                    None => (RESULT_NOT_FOUND, Vec::new()),
                    Some(data) => {
                        #[verifier::truncate]
                        let len = data.len() as u32;
                        (RESULT_OK, one_word(len))
                    },
                }
            },
            None => (RESULT_INVALID_COMMAND, Vec::new()),
        }
    }

    fn dispatch_apt(&mut self, msg: &IpcMessage) -> (answer: (u32, Vec<u32>))
        ensures
            answer.0 == old(self)@.apt_dispatched(msg@).result_code,
            answer.1@ == old(self)@.apt_dispatched(msg@).words,
            final(self)@ == old(self)@.apt_dispatched(msg@).kernel,
    {
        match AptCommand::from_id(msg.command_id) {
            Some(AptCommand::GetAppState) => {
                (RESULT_OK, one_word(self.app_state))
            },
            Some(AptCommand::SetAppState) => {
                if msg.normal_words.len() > 0 {
                    self.app_state = msg.normal_words[0];
                }
                (RESULT_OK, one_word(self.app_state))
            },
            None => (RESULT_INVALID_COMMAND, Vec::new()),
        }
    }

    fn dispatch_gsp(&mut self, msg: &IpcMessage) -> (answer: (u32, Vec<u32>))
        ensures
            answer.0 == old(self)@.gsp_dispatched(msg@).result_code,
            answer.1@ == old(self)@.gsp_dispatched(msg@).words,
            final(self)@ == old(self)@.gsp_dispatched(msg@).kernel,
    {
        match GspCommand::from_id(msg.command_id) {
            Some(GspCommand::SetFrameClearColor) => {
                let color = if msg.normal_words.len() > 0 {
                    msg.normal_words[0]
                } else {
                    0xFF00_0000
                };
                let mut words: Vec<u32> = Vec::new();
                words.push(PicaCommandBufferPacket::encode(0x0200, 1, false));
                words.push(color);
                assert(words@ =~= seq![encode_header(0x0200, 1, false), color]);
                self.push_handoff(words);
                (RESULT_OK, Vec::new())
            },
            Some(GspCommand::QueuePixel) => {
                if msg.normal_words.len() < 3 {
                    return (RESULT_INVALID_COMMAND, Vec::new());
                }
                let mut words: Vec<u32> = Vec::new();
                words.push(PicaCommandBufferPacket::encode(0x0201, 1, false));
                words.push((msg.normal_words[1] << 16u32) | (msg.normal_words[0] & 0xFFFF));
                words.push(PicaCommandBufferPacket::encode(0x0202, 1, false));
                words.push(msg.normal_words[2]);
                assert(words@ =~= seq![
                    encode_header(0x0201, 1, false),
                    (msg.normal_words@[1] << 16u32) | (msg.normal_words@[0] & 0xFFFF),
                    encode_header(0x0202, 1, false),
                    msg.normal_words@[2],
                ]);
                self.push_handoff(words);
                (RESULT_OK, Vec::new())
            },
            None => (RESULT_INVALID_COMMAND, Vec::new()),
        }
    }

    fn dispatch_hid(&mut self, msg: &IpcMessage) -> (answer: (u32, Vec<u32>))
        ensures
            answer.0 == old(self)@.hid_dispatched(msg@).result_code,
            answer.1@ == old(self)@.hid_dispatched(msg@).words,
            final(self)@ == old(self)@.hid_dispatched(msg@).kernel,
    {
        match HidCommand::from_id(msg.command_id) {
            Some(HidCommand::Initialize) => {
                self.hid_state = HidInputState { buttons: 0, touch_x: 0, touch_y: 0 };
                (RESULT_OK, one_word(1))
            },
            Some(HidCommand::GetInputState) => {
                let mut words: Vec<u32> = Vec::new();
                words.push(self.hid_state.buttons);
                words.push(self.hid_state.touch_x as u32);
                words.push(self.hid_state.touch_y as u32);
                assert(words@ =~= seq![
                    self.hid_state.buttons,
                    self.hid_state.touch_x as u32,
                    self.hid_state.touch_y as u32,
                ]);
                (RESULT_OK, words)
            },
            Some(HidCommand::SetInputState) => {
                if msg.normal_words.len() < 3 {
                    return (RESULT_INVALID_COMMAND, Vec::new());
                }
                proof {
                    crate::bits::lemma_mask_bound(msg.normal_words@[1], 0xFFFF);
                    crate::bits::lemma_mask_bound(msg.normal_words@[2], 0xFFFF);
                }
                self.hid_state = HidInputState {
                    buttons: msg.normal_words[0],
                    touch_x: (msg.normal_words[1] & 0xFFFF) as u16,
                    touch_y: (msg.normal_words[2] & 0xFFFF) as u16,
                };
                (RESULT_OK, Vec::new())
            },
            None => (RESULT_INVALID_COMMAND, Vec::new()),
        }
    }

    pub(crate) fn dispatch_request(&mut self, pid: ProcessId, request: &IpcRequest) -> (answer: (
        u32,
        Vec<u32>,
    ))
        ensures
            answer.0 == old(self)@.dispatched(pid, request@).result_code,
            answer.1@ == old(self)@.dispatched(pid, request@).words,
            final(self)@ == old(self)@.dispatched(pid, request@).kernel,
    {
        let target = match self.lookup_object(pid, request.session_handle) {
            Some(KernelObject::Session(target)) => target,
            _ => {
                return (RESULT_INVALID_HANDLE, Vec::new());
            },
        };
        match target {
            ServiceTarget::Srv => self.dispatch_srv(pid, &request.message),
            ServiceTarget::FsUser => self.dispatch_fs(pid, &request.message),
            ServiceTarget::AptU => self.dispatch_apt(&request.message),
            ServiceTarget::GspGpu => self.dispatch_gsp(&request.message),
            ServiceTarget::HidUser => self.dispatch_hid(&request.message),
        }
    }
}

} // verus!

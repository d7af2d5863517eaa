use vstd::prelude::*;
use std::collections::VecDeque;

verus! {

/// The system services that the kernel dispatches to.
#[derive(Debug, Clone, Copy, PartialEq, Eq, Structural)]
pub enum ServiceTarget {
    Srv,
    FsUser,
    AptU,
    GspGpu,
    HidUser,
}

#[derive(Debug, Clone, Copy, PartialEq, Eq, Structural)]
pub struct ServiceDefinition {
    pub target: ServiceTarget,
    pub max_sessions: u32,
}

/// A registered service: its name and its definition.
#[derive(Debug, Clone, PartialEq, Eq)]
pub struct ServiceEntry {
    pub name: String,
    pub definition: ServiceDefinition,
}

/// Mathematical model of a registered service.
pub struct ServiceEntryModel {
    pub name: Seq<char>,
    pub definition: ServiceDefinition,
}

impl View for ServiceEntry {
    type V = ServiceEntryModel;

    open spec fn view(&self) -> ServiceEntryModel {
        ServiceEntryModel { name: self.name@, definition: self.definition }
    }
}

/// Index of the first entry at or after `from` with the given name.
pub open spec fn find_service(entries: Seq<ServiceEntryModel>, name: Seq<char>, from: int) -> Option<
    int,
>
    decreases entries.len() - from,
{
    if from < 0 || from >= entries.len() {
        None
    } else if entries[from].name == name {
        Some(from)
    } else {
        find_service(entries, name, from + 1)
    }
}

/// The registry after a registration: the definition takes the place of one
/// registered under the same name, else it is appended.
pub open spec fn registered(
    entries: Seq<ServiceEntryModel>,
    name: Seq<char>,
    definition: ServiceDefinition,
) -> Seq<ServiceEntryModel> {
    match find_service(entries, name, 0) {
        Some(i) => entries.update(i, ServiceEntryModel { name, definition }),
        None => entries.push(ServiceEntryModel { name, definition }),
    }
}

/// The definition registered under a name.
pub open spec fn definition_of(entries: Seq<ServiceEntryModel>, name: Seq<char>) -> Option<
    ServiceDefinition,
> {
    match find_service(entries, name, 0) {
        Some(i) => Some(entries[i].definition),
        None => None,
    }
}

/// The registry of a booted system: the service broker, the file system, the
/// application manager, the GPU broker and the input service.
pub open spec fn bootstrap_registry() -> Seq<ServiceEntryModel> {
    registered(
        registered(
            registered(
                registered(
                    registered(
                        Seq::empty(),
                        "srv:"@,
                        ServiceDefinition { target: ServiceTarget::Srv, max_sessions: 32 },
                    ),
                    "fs:USER"@,
                    ServiceDefinition { target: ServiceTarget::FsUser, max_sessions: 8 },
                ),
                "apt:u"@,
                ServiceDefinition { target: ServiceTarget::AptU, max_sessions: 8 },
            ),
            "gsp::Gpu"@,
            ServiceDefinition { target: ServiceTarget::GspGpu, max_sessions: 4 },
        ),
        "hid:USER"@,
        ServiceDefinition { target: ServiceTarget::HidUser, max_sessions: 4 },
    )
}

/// Mapping from service name to target and session limit, in order of
/// registration.
#[derive(Debug, Clone)]
pub struct ServiceRegistry {
    definitions: Vec<ServiceEntry>,
}

impl View for ServiceRegistry {
    type V = Seq<ServiceEntryModel>;

    closed spec fn view(&self) -> Seq<ServiceEntryModel> {
        Seq::new(self.definitions@.len(), |i: int| self.definitions@[i]@)
    }
}

impl ServiceRegistry {
    /// An empty registry.
    pub fn new() -> (registry: Self)
        ensures
            registry@ == Seq::<ServiceEntryModel>::empty(),
    {
        let registry = ServiceRegistry { definitions: Vec::new() };
        assert(registry@ =~= Seq::<ServiceEntryModel>::empty());
        registry
    }

    fn position(&self, name: &String) -> (index: Option<usize>)
        ensures
            match index {
                Some(i) => i < self@.len() && find_service(self@, name@, 0) == Some(i as int),
                None => find_service(self@, name@, 0) is None,
            },
    {
        let mut i: usize = 0;
        while i < self.definitions.len()
            invariant
                i <= self.definitions@.len(),
                find_service(self@, name@, 0) == find_service(self@, name@, i as int),
            decreases self.definitions@.len() - i,
        {
            if self.definitions[i].name == *name {
                return Some(i);
            }
            i += 1;
        }
        None
    }

    /// Registers a service under `name`, in place of any registered under it.
    pub fn register(&mut self, name: &str, target: ServiceTarget, max_sessions: u32)
        ensures
            final(self)@ == registered(
                old(self)@,
                name@,
                ServiceDefinition { target, max_sessions },
            ),
    {
        let owned = name.to_owned();
        let entry = ServiceEntry {
            name: name.to_owned(),
            definition: ServiceDefinition { target, max_sessions },
        };
        let ghost model = entry@;
        match self.position(&owned) {
            Some(i) => {
                self.definitions[i] = entry;
                assert(self@ =~= old(self)@.update(i as int, model));
            },
            None => {
                self.definitions.push(entry);
                assert(self@ =~= old(self)@.push(model));
            },
        }
    }

    /// The definition registered under `name`.
    pub fn definition(&self, name: &str) -> (definition: Option<ServiceDefinition>)
        ensures
            definition == definition_of(self@, name@),
    {
        let owned = name.to_owned();
        match self.position(&owned) {
            Some(i) => Some(self.definitions[i].definition),
            None => None,
        }
    }

    /// Number of registered services.
    pub fn len(&self) -> (len: usize)
        ensures
            len == self@.len(),
    {
        self.definitions.len()
    }

    /// The registered services, in order of registration.
    pub fn iter(&self) -> (entries: Vec<ServiceEntry>)
        ensures
            entries@.len() == self@.len(),
            forall|i: int| 0 <= i < entries@.len() ==> (#[trigger] entries@[i])@ == self@[i],
    {
        let mut entries: Vec<ServiceEntry> = Vec::new();
        let mut i: usize = 0;
        while i < self.definitions.len()
            invariant
                i <= self.definitions@.len(),
                entries@.len() == i,
                forall|k: int| 0 <= k < i ==> (#[trigger] entries@[k])@ == self@[k],
            decreases self.definitions@.len() - i,
        {
            entries.push(
                ServiceEntry {
                    name: self.definitions[i].name.clone(),
                    definition: self.definitions[i].definition,
                },
            );
            i += 1;
        }
        entries
    }

    /// The registry of a booted system.
    pub fn bootstrap() -> (registry: Self)
        ensures
            registry@ == bootstrap_registry(),
    {
        let mut registry = ServiceRegistry::new();
        registry.register("srv:", ServiceTarget::Srv, 32);
        registry.register("fs:USER", ServiceTarget::FsUser, 8);
        registry.register("apt:u", ServiceTarget::AptU, 8);
        registry.register("gsp::Gpu", ServiceTarget::GspGpu, 4);
        registry.register("hid:USER", ServiceTarget::HidUser, 4);
        registry
    }
}

impl Default for ServiceRegistry {
    fn default() -> (registry: Self)
        ensures
            registry@ == Seq::<ServiceEntryModel>::empty(),
    {
        ServiceRegistry::new()
    }
}

/// Buttons and touch position as the input service holds them.
#[derive(Debug, Clone, Copy, PartialEq, Eq, Structural)]
pub struct HidInputState {
    pub buttons: u32,
    pub touch_x: u16,
    pub touch_y: u16,
}

impl Default for HidInputState {
    fn default() -> (state: Self)
        ensures
            state == (HidInputState { buttons: 0, touch_x: 0, touch_y: 0 }),
    {
        HidInputState { buttons: 0, touch_x: 0, touch_y: 0 }
    }
}

/// State that the services keep between requests.
#[derive(Debug, Clone)]
pub struct ServiceRuntime {
    pub app_state: u32,
    pub gpu_handoff: VecDeque<Vec<u32>>,
    pub hid_state: HidInputState,
}

impl Default for ServiceRuntime {
    fn default() -> (runtime: Self)
        ensures
            runtime.app_state == 0,
            runtime.gpu_handoff@.len() == 0,
            runtime.hid_state == (HidInputState { buttons: 0, touch_x: 0, touch_y: 0 }),
    {
        ServiceRuntime {
            app_state: 0,
            gpu_handoff: VecDeque::new(),
            hid_state: HidInputState { buttons: 0, touch_x: 0, touch_y: 0 },
        }
    }
}

} // verus!

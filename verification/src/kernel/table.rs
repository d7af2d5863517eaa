use vstd::prelude::*;
use std::collections::HashMap;
use std::collections::VecDeque;
use crate::ipc::{Handle, KernelObjectType, ProcessId};
use crate::kernel::{Kernel, KernelModel, KernelObject, ProcessState, ProcessView};

verus! {

/// Index of the first process at or after `from` with the given id.
pub open spec fn find_process(ps: Seq<ProcessView>, pid: ProcessId, from: int) -> Option<int>
    decreases ps.len() - from,
{
    if from < 0 || from >= ps.len() {
        None
    } else if ps[from].pid == pid {
        Some(from)
    } else {
        find_process(ps, pid, from + 1)
    }
}

/// Index of the first process at or after `from` whose id is greater than `pid`.
pub open spec fn process_slot(ps: Seq<ProcessView>, pid: ProcessId, from: int) -> int
    decreases ps.len() - from,
{
    if from < 0 || from >= ps.len() {
        ps.len() as int
    } else if ps[from].pid > pid {
        from
    } else {
        process_slot(ps, pid, from + 1)
    }
}

/// The kind of object that a handle refers to.
pub open spec fn object_type(object: KernelObject) -> KernelObjectType {
    match object {
        KernelObject::Port(_) => KernelObjectType::Port,
        KernelObject::Session(_) => KernelObjectType::Session,
        KernelObject::Event(_) => KernelObjectType::Event,
        KernelObject::Archive(_) => KernelObjectType::Archive,
        KernelObject::File(_) => KernelObjectType::File,
    }
}

impl KernelModel {
    /// The processes are ordered by id, no id occurs twice, every handle in a
    /// table was handed out by the counter, and no handle is in two tables.
    pub open spec fn well_formed(self) -> bool {
        &&& forall|i: int, j: int|
            0 <= i < j < self.processes.len() ==> (#[trigger] self.processes[i]).pid < (
            #[trigger] self.processes[j]).pid
        &&& forall|i: int, h: Handle|
            0 <= i < self.processes.len() && (#[trigger] self.processes[i].handles.contains_key(h))
                ==> h < self.next_handle
        &&& forall|i: int, j: int, h: Handle|
            0 <= i < self.processes.len() && 0 <= j < self.processes.len() && i != j && (
            #[trigger] self.processes[i].handles.contains_key(h)) ==> !(
            #[trigger] self.processes[j].handles.contains_key(h))
    }

    /// Index of the process with the given id.
    pub open spec fn index_of(self, pid: ProcessId) -> Option<int> {
        find_process(self.processes, pid, 0)
    }

    /// The kernel with the process at `index` replaced.
    pub open spec fn with_process(self, index: int, process: ProcessView) -> KernelModel {
        KernelModel { processes: self.processes.update(index, process), ..self }
    }

    /// The kernel after a process was made sure to exist: a new process is
    /// entered at its place in the order by id.
    pub open spec fn ensured(self, pid: ProcessId) -> KernelModel {
        match self.index_of(pid) {
            Some(_) => self,
            None => KernelModel {
                processes: self.processes.insert(
                    process_slot(self.processes, pid, 0),
                    ProcessView::fresh(pid),
                ),
                ..self
            },
        }
    }

    /// What a handle refers to in a process: nothing in any process but the one
    /// that owns it.
    pub open spec fn lookup(self, pid: ProcessId, handle: Handle) -> Option<KernelObject> {
        match self.index_of(pid) {
            None => None,
            Some(i) => if self.processes[i].handles.contains_key(handle) {
                Some(self.processes[i].handles[handle])
            } else {
                None
            },
        }
    }

    /// The handle that the next allocation hands out.
    pub open spec fn fresh_handle(self) -> Handle {
        self.next_handle
    }

    /// The kernel after a handle was allocated for `object` in a process: the
    /// counter advances, saturating, and the handle enters the table of the
    /// process, where the process exists.
    pub open spec fn allocated(self, pid: ProcessId, object: KernelObject) -> KernelModel {
        let counted = KernelModel {
            next_handle: if self.next_handle == u32::MAX {
                u32::MAX
            } else {
                (self.next_handle + 1) as u32
            },
            ..self
        };
        match self.index_of(pid) {
            None => counted,
            Some(i) => counted.with_process(
                i,
                ProcessView {
                    handles: self.processes[i].handles.insert(self.next_handle, object),
                    ..self.processes[i]
                },
            ),
        }
    }

    /// The kernel after a handle was closed: the binding leaves the table of the
    /// process; the object and other handles to it stay.
    pub open spec fn closed(self, pid: ProcessId, handle: Handle) -> KernelModel {
        match self.index_of(pid) {
            None => self,
            Some(i) => self.with_process(
                i,
                ProcessView { handles: self.processes[i].handles.remove(handle), ..self.processes[i] },
            ),
        }
    }
}

impl ProcessState {
    pub fn new(pid: ProcessId) -> (process: Self)
        ensures
            process@ == ProcessView::fresh(pid),
    {
        let process = ProcessState {
            pid,
            handles: HashMap::new(),
            pending_requests: VecDeque::new(),
            pending_responses: VecDeque::new(),
            last_result_code: 0,
            blocked: false,
        };
        assert(process@.requests =~= Seq::empty());
        assert(process@.responses =~= Seq::empty());
        process
    }
}

impl Kernel {
    pub(crate) fn process_position(&self, pid: ProcessId) -> (index: Option<usize>)
        ensures
            match index {
                Some(i) => i < self@.processes.len() && self@.index_of(pid) == Some(i as int)
                    && self@.processes[i as int].pid == pid,
                None => self@.index_of(pid) is None,
            },
    {
        let mut i: usize = 0;
        while i < self.processes.len()
            invariant
                i <= self.processes@.len(),
                find_process(self@.processes, pid, 0) == find_process(
                    self@.processes,
                    pid,
                    i as int,
                ),
            decreases self.processes@.len() - i,
        {
            if self.processes[i].pid == pid {
                return Some(i);
            }
            i += 1;
        }
        None
    }

    /// Makes sure that a process with the given id exists.
    pub fn ensure_process(&mut self, pid: ProcessId)
        ensures
            final(self)@ == old(self)@.ensured(pid),
            final(self)@.index_of(pid) is Some,
    {
        match self.process_position(pid) {
            Some(_) => {
                return ;
            },
            None => {},
        }
        let mut slot: usize = 0;
        while slot < self.processes.len() && self.processes[slot].pid <= pid
            invariant
                slot <= self.processes@.len(),
                self@ == old(self)@,
                process_slot(self@.processes, pid, 0) == process_slot(
                    self@.processes,
                    pid,
                    slot as int,
                ),
            decreases self.processes@.len() - slot,
        {
            slot += 1;
        }
        self.processes.insert(slot, ProcessState::new(pid));
        assert(self@.processes =~= old(self)@.processes.insert(
            slot as int,
            ProcessView::fresh(pid),
        ));
        proof {
            lemma_inserted_is_found(old(self)@.processes, pid, slot as int, 0);
        }
    }

    pub(crate) fn allocate_handle(&mut self, pid: ProcessId, object: KernelObject) -> (handle: Handle)
        ensures
            handle == old(self)@.fresh_handle(),
            final(self)@ == old(self)@.allocated(pid, object),
    {
        let handle = self.next_handle;
        self.next_handle = self.next_handle.saturating_add(1);
        match self.process_position(pid) {
            Some(i) => {
                self.processes[i].handles.insert(handle, object);
                assert(self@.processes =~= old(self)@.processes.update(
                    i as int,
                    ProcessView {
                        handles: old(self)@.processes[i as int].handles.insert(handle, object),
                        ..old(self)@.processes[i as int]
                    },
                ));
            },
            None => {},
        }
        handle
    }

    pub(crate) fn lookup_object(&self, pid: ProcessId, handle: Handle) -> (object: Option<
        KernelObject,
    >)
        ensures
            object == self@.lookup(pid, handle),
    {
        match self.process_position(pid) {
            None => None,
            Some(i) => match self.processes[i].handles.get(&handle) {
                Some(object) => Some(*object),
                None => None,
            },
        }
    }

    /// Closes a handle of a process and says whether it was open.
    pub fn close_handle(&mut self, pid: ProcessId, handle: Handle) -> (closed: bool)
        ensures
            closed == (old(self)@.lookup(pid, handle) is Some),
            final(self)@ == old(self)@.closed(pid, handle),
    {
        match self.process_position(pid) {
            None => false,
            Some(i) => {
                let removed = self.processes[i].handles.remove(&handle);
                assert(self@.processes =~= old(self)@.processes.update(
                    i as int,
                    ProcessView {
                        handles: old(self)@.processes[i as int].handles.remove(handle),
                        ..old(self)@.processes[i as int]
                    },
                ));
                removed.is_some()
            },
        }
    }

    /// The kind of object that a handle of a process refers to.
    pub fn handle_type(&self, pid: ProcessId, handle: Handle) -> (kind: Option<KernelObjectType>)
        ensures
            kind == match self@.lookup(pid, handle) {
                Some(object) => Some(object_type(object)),
                None => None,
            },
    {
        match self.lookup_object(pid, handle) {
            None => None,
            Some(object) => Some(
                match object {
                    KernelObject::Port(_) => KernelObjectType::Port,
                    KernelObject::Session(_) => KernelObjectType::Session,
                    KernelObject::Event(_) => KernelObjectType::Event,
                    KernelObject::Archive(_) => KernelObjectType::Archive,
                    KernelObject::File(_) => KernelObjectType::File,
                },
            ),
        }
    }

    /// Duplicates a handle of a process: a new handle of the same process that
    /// refers to the same object.
    pub fn duplicate_handle(&mut self, pid: ProcessId, handle: Handle) -> (copy: Option<Handle>)
        ensures
            copy == match old(self)@.lookup(pid, handle) {
                Some(_) => Some(old(self)@.fresh_handle()),
                None => None,
            },
            final(self)@ == match old(self)@.lookup(pid, handle) {
                Some(object) => old(self)@.allocated(pid, object),
                None => old(self)@,
            },
    {
        match self.lookup_object(pid, handle) {
            None => None,
            Some(object) => Some(self.allocate_handle(pid, object)),
        }
    }
}

/// A process that was entered in the table is found there.
pub proof fn lemma_inserted_is_found(ps: Seq<ProcessView>, pid: ProcessId, slot: int, from: int)
    requires
        0 <= from <= slot <= ps.len(),
        find_process(ps, pid, 0) is None,
    ensures
        find_process(ps.insert(slot, ProcessView::fresh(pid)), pid, from) is Some,
    decreases slot - from,
{
    let after = ps.insert(slot, ProcessView::fresh(pid));
    if from < slot {
        lemma_inserted_is_found(ps, pid, slot, from + 1);
    } else {
        assert(after[slot].pid == pid);
    }
}

/// No process is found in a table that does not hold its id, and a process that
/// is found has the id asked for.
pub proof fn lemma_find_process(ps: Seq<ProcessView>, pid: ProcessId, from: int)
    requires
        0 <= from,
    ensures
        match find_process(ps, pid, from) {
            Some(i) => from <= i < ps.len() && ps[i].pid == pid,
            None => forall|k: int| from <= k < ps.len() ==> (#[trigger] ps[k]).pid != pid,
        },
    decreases ps.len() - from,
{
    if from < ps.len() && ps[from].pid != pid {
        lemma_find_process(ps, pid, from + 1);
    }
}

/// Handle isolation. In a well-formed kernel, the handle that an allocation in
/// process `a` hands out resolves in `a` to the object it was allocated for and
/// does not resolve in any other process `b`; handles that resolved in `b`
/// before still resolve to the same objects; and as long as the counter has not
/// reached its end, the kernel stays well formed.
pub proof fn law_handle_isolation(k: KernelModel, a: ProcessId, b: ProcessId, object: KernelObject, h: Handle)
    requires
        k.well_formed(),
        a != b,
    ensures
        k.index_of(a) is Some ==> k.allocated(a, object).lookup(a, k.fresh_handle()) == Some(
            object,
        ),
        k.allocated(a, object).lookup(b, k.fresh_handle()) is None,
        k.allocated(a, object).lookup(b, h) == k.lookup(b, h),
        k.next_handle < u32::MAX ==> k.allocated(a, object).well_formed(),
{
    let after = k.allocated(a, object);
    lemma_find_process(k.processes, a, 0);
    lemma_find_process(k.processes, b, 0);
    lemma_find_process(after.processes, a, 0);
    lemma_find_process(after.processes, b, 0);
    match k.index_of(a) {
        None => {},
        Some(i) => {
            assert(after.processes.len() == k.processes.len());
            assert forall|j: int| 0 <= j < k.processes.len() implies (#[trigger] after.processes[j]).pid
                == k.processes[j].pid by {}
            lemma_same_ids_same_index(k.processes, after.processes, a, 0);
            lemma_same_ids_same_index(k.processes, after.processes, b, 0);
            match k.index_of(b) {
                None => {},
                Some(j) => {
                    assert(i != j);
                    assert(after.processes[j] == k.processes[j]);
                    if k.processes[j].handles.contains_key(k.next_handle) {
                        assert(k.next_handle < k.next_handle);
                    }
                },
            }
            if k.next_handle < u32::MAX {
                assert forall|x: int, y: int, g: Handle|
                    0 <= x < after.processes.len() && 0 <= y < after.processes.len() && x != y && (
                    #[trigger] after.processes[x].handles.contains_key(g)) implies !(
                #[trigger] after.processes[y].handles.contains_key(g)) by {
                    if x == i {
                        if g == k.next_handle {
                            if k.processes[y].handles.contains_key(g) {
                                assert(g < k.next_handle);
                            }
                        } else {
                            assert(k.processes[x].handles.contains_key(g));
                        }
                    } else if y == i {
                        assert(k.processes[x].handles.contains_key(g));
                        if g == k.next_handle {
                            assert(g < k.next_handle);
                        }
                    } else {
                        assert(k.processes[x].handles.contains_key(g));
                    }
                }
                assert forall|x: int, g: Handle|
                    0 <= x < after.processes.len() && (
                    #[trigger] after.processes[x].handles.contains_key(g)) implies g
                    < after.next_handle by {
                    if x == i && g == k.next_handle {
                    } else {
                        assert(k.processes[x].handles.contains_key(g));
                    }
                }
                assert forall|x: int, y: int| 0 <= x < y < after.processes.len() implies (
                #[trigger] after.processes[x]).pid < (#[trigger] after.processes[y]).pid by {
                    assert(k.processes[x].pid < k.processes[y].pid);
                }
            }
        },
    }
}

/// Tables with the same ids at the same places find the same processes.
pub proof fn lemma_same_ids_same_index(
    before: Seq<ProcessView>,
    after: Seq<ProcessView>,
    pid: ProcessId,
    from: int,
)
    requires
        before.len() == after.len(),
        forall|j: int| 0 <= j < before.len() ==> (#[trigger] after[j]).pid == before[j].pid,
    ensures
        find_process(after, pid, from) == find_process(before, pid, from),
    decreases before.len() - from,
{
    if 0 <= from < before.len() {
        lemma_same_ids_same_index(before, after, pid, from + 1);
    }
}

/// The slot found for a new process lies behind every process with a smaller id
/// and in front of every process with a greater one.
pub proof fn lemma_process_slot(ps: Seq<ProcessView>, pid: ProcessId, from: int)
    requires
        0 <= from <= ps.len(),
        forall|i: int, j: int| 0 <= i < j < ps.len() ==> (#[trigger] ps[i]).pid < (#[trigger] ps[j]).pid,
        forall|i: int| 0 <= i < from ==> (#[trigger] ps[i]).pid <= pid,
    ensures
        from <= process_slot(ps, pid, from) <= ps.len(),
        forall|i: int| 0 <= i < process_slot(ps, pid, from) ==> (#[trigger] ps[i]).pid <= pid,
        forall|i: int| process_slot(ps, pid, from) <= i < ps.len() ==> (#[trigger] ps[i]).pid > pid,
    decreases ps.len() - from,
{
    if from < ps.len() {
        if ps[from].pid > pid {
            assert forall|i: int| from <= i < ps.len() implies (#[trigger] ps[i]).pid > pid by {
                if i > from {
                    assert(ps[from].pid < ps[i].pid);
                }
            }
        } else {
            lemma_process_slot(ps, pid, from + 1);
        }
    }
}

/// Making sure that a process exists keeps the kernel well formed, and changes
/// what no handle resolves to.
pub proof fn law_ensured_keeps_tables(k: KernelModel, pid: ProcessId, other: ProcessId, h: Handle)
    requires
        k.well_formed(),
    ensures
        k.ensured(pid).well_formed(),
        k.ensured(pid).lookup(other, h) == k.lookup(other, h),
{
    lemma_find_process(k.processes, pid, 0);
    lemma_find_process(k.processes, other, 0);
    match k.index_of(pid) {
        Some(_) => {},
        None => {
            lemma_process_slot(k.processes, pid, 0);
            let slot = process_slot(k.processes, pid, 0);
            let after = k.ensured(pid);
            lemma_find_process(after.processes, other, 0);
            assert forall|i: int| 0 <= i < after.processes.len() implies #[trigger] after.processes[i] == (
            if i < slot {
                k.processes[i]
            } else if i == slot {
                ProcessView::fresh(pid)
            } else {
                k.processes[i - 1]
            }) by {}
            assert forall|i: int, j: int| 0 <= i < j < after.processes.len() implies (
            #[trigger] after.processes[i]).pid < (#[trigger] after.processes[j]).pid by {
                if i < slot && j > slot {
                    assert(k.processes[i].pid < k.processes[j - 1].pid);
                } else if i < slot && j < slot {
                    assert(k.processes[i].pid < k.processes[j].pid);
                } else if i > slot {
                    assert(k.processes[i - 1].pid < k.processes[j - 1].pid);
                } else if i == slot {
                    assert(k.processes[j - 1].pid > pid);
                } else {
                    assert(j == slot);
                    assert(k.processes[i].pid <= pid);
                    assert(k.processes[i].pid != pid);
                }
            }
            assert forall|i: int, g: Handle|
                0 <= i < after.processes.len() && (#[trigger] after.processes[i].handles.contains_key(
                    g,
                )) implies g < after.next_handle by {
                if i < slot {
                    assert(k.processes[i].handles.contains_key(g));
                } else if i > slot {
                    assert(k.processes[i - 1].handles.contains_key(g));
                }
            }
            assert forall|i: int, j: int, g: Handle|
                0 <= i < after.processes.len() && 0 <= j < after.processes.len() && i != j && (
                #[trigger] after.processes[i].handles.contains_key(g)) implies !(
            #[trigger] after.processes[j].handles.contains_key(g)) by {
                let oi = if i < slot {
                    i
                } else {
                    i - 1
                };
                let oj = if j < slot {
                    j
                } else {
                    j - 1
                };
                if i != slot && j != slot {
                    assert(k.processes[oi].handles.contains_key(g));
                    assert(oi != oj);
                }
            }
            if other != pid {
                match k.index_of(other) {
                    None => {
                        match after.index_of(other) {
                            Some(x) => {
                                if x < slot {
                                    assert(k.processes[x].pid == other);
                                } else if x > slot {
                                    assert(k.processes[x - 1].pid == other);
                                }
                            },
                            None => {},
                        }
                    },
                    Some(o) => {
                        let x = if o < slot {
                            o
                        } else {
                            o + 1
                        };
                        assert(after.processes[x].pid == other);
                        match after.index_of(other) {
                            Some(y) => {
                                if y != x {
                                    if y < x {
                                        assert(after.processes[y].pid < after.processes[x].pid);
                                    } else {
                                        assert(after.processes[x].pid < after.processes[y].pid);
                                    }
                                }
                            },
                            None => {
                                assert(after.processes[x].pid != other);
                            },
                        }
                    },
                }
            } else {
                match after.index_of(pid) {
                    Some(y) => {
                        if y != slot {
                            if y < slot {
                                assert(k.processes[y].pid == pid);
                            } else {
                                assert(k.processes[y - 1].pid == pid);
                            }
                        }
                    },
                    None => {},
                }
            }
        },
    }
}

} // verus!

use vstd::prelude::*;
use std::collections::VecDeque;
use crate::error::MemoryAccessKind;

verus! {

/// The categories of trace records, one ring buffer each.
#[derive(Debug, Clone, Copy, PartialEq, Eq, Hash, Structural)]
pub enum TraceCategory {
    CpuFetchDecode,
    Ipc,
    ServiceCall,
    MmuFault,
    GpuCommand,
}

/// What a trace record holds, by category.
#[derive(Debug, Clone, Copy, PartialEq, Eq, Structural)]
pub enum TracePayload {
    CpuFetchDecode { pc: u32, opcode: u32, thumb: bool },
    Ipc { command_id: u16, handle_id: u32, result_code: u32 },
    ServiceCall { imm24: u32 },
    MmuFault { va: u32, pa: Option<u32>, access: MemoryAccessKind },
    GpuCommand { reg: u16, value: u32 },
}

/// A trace record: the cycle at which it was taken, and its payload.
#[derive(Debug, Clone, Copy, PartialEq, Eq, Structural)]
pub struct TraceRecord {
    pub cycle: u64,
    pub payload: TracePayload,
}

/// A fault as the diagnostics keep it.
#[derive(Debug, Clone, Copy, PartialEq, Eq, Structural)]
pub enum StructuredError {
    CpuInvalidInstruction { pc: u32, opcode: u32 },
    MmuFault { pc: u32, va: u32, pa: Option<u32>, access: MemoryAccessKind },
    ServiceCallFailure { pc: u32, service_command_id: u16, handle_id: u32, result_code: u32 },
}

/// A fault and the cycle at which it was recorded.
#[derive(Debug, Clone, Copy, PartialEq, Eq, Structural)]
pub struct FaultSnapshot {
    pub cycle: u64,
    pub error: StructuredError,
}

/// The checkpoints of a boot, in the order in which they are expected.
#[derive(Debug, Clone, Copy, PartialEq, Eq, Hash, Structural)]
pub enum BootCheckpoint {
    RomLoaded,
    FirstInstruction,
    FirstServiceCall,
    FirstIpcDispatch,
    FirstGpuCommand,
    FirstFramePresent,
    CpuHalted,
}

/// A checkpoint and the cycle at which it was first reached.
#[derive(Debug, Clone, Copy, PartialEq, Eq, Structural)]
pub struct BootCheckpointEvent {
    pub checkpoint: BootCheckpoint,
    pub cycle: u64,
}

/// The checkpoints reached so far, and the position of the first one that came out
/// of order.
#[derive(Debug, Clone, PartialEq, Eq, Default)]
pub struct BootCheckpointSnapshot {
    pub events: Vec<BootCheckpointEvent>,
    pub divergence_at: Option<usize>,
}

/// Model of a ring buffer: its capacity and its values, oldest first.
pub struct RingModel<T> {
    pub cap: usize,
    pub values: Seq<T>,
}

impl<T> RingModel<T> {
    /// The buffer holds no more values than its capacity.
    pub open spec fn well_formed(self) -> bool {
        self.values.len() <= self.cap
    }

    /// The buffer after a push: a buffer without capacity takes nothing; a full
    /// buffer drops its oldest value first.
    pub open spec fn pushed(self, value: T) -> RingModel<T> {
        if self.cap == 0 {
            self
        } else if self.values.len() == self.cap {
            RingModel { values: self.values.drop_first().push(value), ..self }
        } else {
            RingModel { values: self.values.push(value), ..self }
        }
    }

    /// The newest `limit` values, oldest first.
    pub open spec fn recent(self, limit: usize) -> Seq<T> {
        if limit >= self.values.len() {
            self.values
        } else {
            self.values.subrange(self.values.len() - limit, self.values.len() as int)
        }
    }
}

/// Bounded buffer that keeps the most recent values.
pub struct RingBuffer<T> {
    cap: usize,
    values: VecDeque<T>,
}

impl<T> View for RingBuffer<T> {
    type V = RingModel<T>;

    closed spec fn view(&self) -> RingModel<T> {
        RingModel { cap: self.cap, values: self.values@ }
    }
}

impl<T> RingBuffer<T> {
    /// Every ring buffer holds no more values than its capacity.
    #[verifier::type_invariant]
    pub open spec fn inv(&self) -> bool {
        self@.well_formed()
    }

    /// An empty ring buffer that keeps up to `cap` values.
    pub fn new(cap: usize) -> (ring: Self)
        ensures
            ring@ == (RingModel::<T> { cap, values: Seq::empty() }),
    {
        RingBuffer { cap, values: VecDeque::new() }
    }

    /// Drops every value; the capacity stays.
    pub fn clear(&mut self)
        ensures
            final(self)@ == (RingModel::<T> { cap: old(self)@.cap, values: Seq::empty() }),
    {
        self.values = VecDeque::new();
    }

    /// Appends a value, dropping the oldest one when the buffer is full.
    pub fn push(&mut self, value: T)
        ensures
            final(self)@ == old(self)@.pushed(value),
            final(self)@.values.len() <= final(self)@.cap,
    {
        proof {
            use_type_invariant(&*self);
        }
        if self.cap == 0 {
            return ;
        }
        let mut values: VecDeque<T> = VecDeque::new();
        std::mem::swap(&mut values, &mut self.values);
        if values.len() == self.cap {
            let _ = values.pop_front();
        }
        values.push_back(value);
        self.values = values;
    }

    /// Number of values held.
    pub fn len(&self) -> (len: usize)
        ensures
            len == self@.values.len(),
    {
        self.values.len()
    }
}

impl<T: Copy> RingBuffer<T> {
    /// The newest `limit` values, oldest first.
    pub fn recent(&self, limit: usize) -> (out: Vec<T>)
        ensures
            out@ == self@.recent(limit),
    {
        let len = self.values.len();
        let keep = if limit < len {
            limit
        } else {
            len
        };
        let start = len - keep;
        let mut out: Vec<T> = Vec::new();
        let mut i: usize = start;
        while i < len
            invariant
                start <= i <= len,
                len == self.values@.len(),
                out@ == self.values@.subrange(start as int, i as int),
            decreases len - i,
        {
            out.push(self.values[i]);
            assert(out@ =~= self.values@.subrange(start as int, i + 1));
            i += 1;
        }
        assert(self.values@.subrange(0, len as int) =~= self.values@);
        out
    }
}

/// The checkpoint that a boot is expected to reach as its `index`-th.
pub open spec fn expected_checkpoint(index: int) -> Option<BootCheckpoint> {
    if index == 0 {
        Some(BootCheckpoint::RomLoaded)
    } else if index == 1 {
        Some(BootCheckpoint::FirstInstruction)
    } else if index == 2 {
        Some(BootCheckpoint::FirstServiceCall)
    } else if index == 3 {
        Some(BootCheckpoint::FirstIpcDispatch)
    } else if index == 4 {
        Some(BootCheckpoint::FirstGpuCommand)
    } else if index == 5 {
        Some(BootCheckpoint::FirstFramePresent)
    } else {
        None
    }
}

/// Whether a checkpoint has been observed.
pub open spec fn observed_before(observed: Seq<BootCheckpointEvent>, checkpoint: BootCheckpoint) -> bool {
    exists|i: int| 0 <= i < observed.len() && (#[trigger] observed[i]).checkpoint == checkpoint
}

/// Model of the boot profiler: the first occurrence of each checkpoint, in the
/// order observed, and the index of the first one that was not the expected one.
pub struct ProfilerModel {
    pub observed: Seq<BootCheckpointEvent>,
    pub divergence_at: Option<usize>,
}

impl ProfilerModel {
    /// The state of a profiler that has seen no checkpoint.
    pub open spec fn initial() -> ProfilerModel {
        ProfilerModel { observed: Seq::empty(), divergence_at: None }
    }

    /// The profiler after a checkpoint was reached at `cycle`: only the first
    /// occurrence of a checkpoint is recorded, and the first record that differs
    /// from the expected sequence, or lies beyond it, marks the divergence.
    pub open spec fn marked(self, checkpoint: BootCheckpoint, cycle: u64) -> ProfilerModel {
        if observed_before(self.observed, checkpoint) {
            self
        } else {
            ProfilerModel {
                observed: self.observed.push(BootCheckpointEvent { checkpoint, cycle }),
                divergence_at: if self.divergence_at is None && expected_checkpoint(
                    self.observed.len() as int,
                ) != Some(checkpoint) {
                    Some(self.observed.len() as usize)
                } else {
                    self.divergence_at
                },
            }
        }
    }
}

/// Records the first occurrence of each boot checkpoint and flags where the
/// observed order leaves the expected one.
pub struct BootCheckpointProfiler {
    observed: Vec<BootCheckpointEvent>,
    divergence_at: Option<usize>,
}

impl View for BootCheckpointProfiler {
    type V = ProfilerModel;

    closed spec fn view(&self) -> ProfilerModel {
        ProfilerModel { observed: self.observed@, divergence_at: self.divergence_at }
    }
}

fn expected_at(index: usize) -> (expected: Option<BootCheckpoint>)
    ensures
        expected == expected_checkpoint(index as int),
{
    if index == 0 {
        Some(BootCheckpoint::RomLoaded)
    } else if index == 1 {
        Some(BootCheckpoint::FirstInstruction)
    } else if index == 2 {
        Some(BootCheckpoint::FirstServiceCall)
    } else if index == 3 {
        Some(BootCheckpoint::FirstIpcDispatch)
    } else if index == 4 {
        Some(BootCheckpoint::FirstGpuCommand)
    } else if index == 5 {
        Some(BootCheckpoint::FirstFramePresent)
    } else {
        None
    }
}

impl BootCheckpointProfiler {
    /// A profiler that has seen no checkpoint.
    pub fn new() -> (profiler: Self)
        ensures
            profiler@ == ProfilerModel::initial(),
    {
        BootCheckpointProfiler { observed: Vec::new(), divergence_at: None }
    }

    /// Forgets every checkpoint.
    pub fn reset(&mut self)
        ensures
            final(self)@ == ProfilerModel::initial(),
    {
        self.observed.clear();
        self.divergence_at = None;
    }

    fn seen(&self, checkpoint: BootCheckpoint) -> (seen: bool)
        ensures
            seen == observed_before(self@.observed, checkpoint),
    {
        let mut i: usize = 0;
        while i < self.observed.len()
            invariant
                i <= self.observed@.len(),
                forall|k: int| 0 <= k < i ==> (#[trigger] self.observed@[k]).checkpoint != checkpoint,
            decreases self.observed@.len() - i,
        {
            if self.observed[i].checkpoint == checkpoint {
                return true;
            }
            i += 1;
        }
        false
    }

    /// Records that `checkpoint` was reached at `cycle`.
    pub fn mark(&mut self, checkpoint: BootCheckpoint, cycle: u64)
        ensures
            final(self)@ == old(self)@.marked(checkpoint, cycle),
    {
        if self.seen(checkpoint) {
            return ;
        }
        let idx = self.observed.len();
        self.observed.push(BootCheckpointEvent { checkpoint, cycle });
        if self.divergence_at.is_none() {
            match expected_at(idx) {
                Some(expected) => {
                    if expected != checkpoint {
                        self.divergence_at = Some(idx);
                    }
                },
                None => {
                    self.divergence_at = Some(idx);
                },
            }
        }
    }

    /// The checkpoints reached so far, and where the boot left the expected order.
    pub fn snapshot(&self) -> (snapshot: BootCheckpointSnapshot)
        ensures
            snapshot.events@ == self@.observed,
            snapshot.divergence_at == self@.divergence_at,
    {
        let mut events: Vec<BootCheckpointEvent> = Vec::new();
        let mut i: usize = 0;
        while i < self.observed.len()
            invariant
                i <= self.observed@.len(),
                events@ == self.observed@.subrange(0, i as int),
            decreases self.observed@.len() - i,
        {
            events.push(self.observed[i]);
            assert(events@ =~= self.observed@.subrange(0, i + 1));
            i += 1;
        }
        assert(self.observed@.subrange(0, self.observed@.len() as int) =~= self.observed@);
        BootCheckpointSnapshot { events, divergence_at: self.divergence_at }
    }
}

impl Default for BootCheckpointProfiler {
    fn default() -> (profiler: Self)
        ensures
            profiler@ == ProfilerModel::initial(),
    {
        BootCheckpointProfiler::new()
    }
}

/// A ring buffer never holds more than its capacity, and after a push into a
/// buffer with capacity the newest value is the one pushed.
pub proof fn law_ring_is_bounded<T>(ring: RingModel<T>, value: T)
    requires
        ring.well_formed(),
    ensures
        ring.pushed(value).well_formed(),
        ring.cap > 0 ==> ring.pushed(value).values.last() == value,
        ring.cap > 0 && ring.values.len() < ring.cap ==> ring.pushed(value).values
            == ring.values.push(value),
{
}

} // verus!

use vstd::prelude::*;
use crate::memory::{read_word_or_zero, write_word, Memory, MemoryModel};
use crate::pica::gpu::PicaGpu;
use crate::pica::state::GpuModel;

verus! {

#[derive(Debug, Clone, Copy, PartialEq, Eq, Structural)]
pub enum DmaTransferKind {
    MemoryToMemory,
    GpuQueueFeed,
}

/// A queued bulk transfer. The destination is ignored when the GPU FIFO is fed.
#[derive(Debug, Clone, Copy, PartialEq, Eq, Structural)]
pub struct DmaTransfer {
    pub channel: u8,
    pub source: u32,
    pub destination: u32,
    pub words: u32,
    pub kind: DmaTransferKind,
}

/// Address of word `index` of a transfer that starts at `base`, wrapping in the
/// 32-bit address space.
pub open spec fn word_address(base: u32, index: u32) -> u32 {
    base.wrapping_add(index.wrapping_mul(4))
}

/// The memory after the first `count` words were copied, one after the other,
/// from `source` to `destination`.
pub open spec fn copied(m: MemoryModel, source: u32, destination: u32, count: nat) -> MemoryModel
    decreases count,
{
    if count == 0 {
        m
    } else {
        let before = copied(m, source, destination, (count - 1) as nat);
        let index = (count - 1) as u32;
        write_word(
            before,
            word_address(destination, index),
            read_word_or_zero(before, word_address(source, index)),
        )
    }
}

/// The `count` words read from `source` on.
pub open spec fn fetched(m: MemoryModel, source: u32, count: nat) -> Seq<u32> {
    Seq::new(count, |i: int| read_word_or_zero(m, word_address(source, i as u32)))
}

/// Index of the first transfer at or after `from` on `channel`.
pub open spec fn first_on_channel(queue: Seq<DmaTransfer>, channel: u8, from: int) -> Option<int>
    decreases queue.len() - from,
{
    if from < 0 || from >= queue.len() {
        None
    } else if queue[from].channel == channel {
        Some(from)
    } else {
        first_on_channel(queue, channel, from + 1)
    }
}

/// Latency of a transfer in cycles: one per word, but at least one.
pub open spec fn latency(transfer: DmaTransfer) -> u64 {
    if transfer.words == 0 {
        1
    } else {
        transfer.words as u64
    }
}

/// What a completion does: whether a transfer was found, and the queue, the
/// memory and the GPU afterwards.
pub struct Completion {
    pub done: bool,
    pub queue: Seq<DmaTransfer>,
    pub memory: MemoryModel,
    pub gpu: GpuModel,
}

/// Completion of the oldest transfer on `channel`: it leaves the queue and is
/// carried out. Without a transfer on the channel nothing changes.
pub open spec fn completion(
    queue: Seq<DmaTransfer>,
    channel: u8,
    memory: MemoryModel,
    gpu: GpuModel,
) -> Completion {
    match first_on_channel(queue, channel, 0) {
        None => Completion { done: false, queue, memory, gpu },
        Some(i) => match queue[i].kind {
            DmaTransferKind::MemoryToMemory => Completion {
                done: true,
                queue: queue.remove(i),
                memory: copied(memory, queue[i].source, queue[i].destination, queue[i].words as nat),
                gpu,
            },
            DmaTransferKind::GpuQueueFeed => Completion {
                done: true,
                queue: queue.remove(i),
                memory,
                gpu: GpuModel {
                    fifo: gpu.fifo + fetched(memory, queue[i].source, queue[i].words as nat),
                    ..gpu
                },
            },
        },
    }
}

/// Two-mode bulk transfer engine with deferred completion.
pub struct DmaEngine {
    in_flight: Vec<DmaTransfer>,
}

impl View for DmaEngine {
    type V = Seq<DmaTransfer>;

    closed spec fn view(&self) -> Seq<DmaTransfer> {
        self.in_flight@
    }
}

impl DmaEngine {
    pub fn new() -> (dma: Self)
        ensures
            dma@ == Seq::<DmaTransfer>::empty(),
    {
        DmaEngine { in_flight: Vec::new() }
    }

    pub fn reset(&mut self)
        ensures
            final(self)@ == Seq::<DmaTransfer>::empty(),
    {
        self.in_flight.clear();
    }

    /// Queues a transfer and returns the cycles after which it completes.
    pub fn queue_transfer(&mut self, transfer: DmaTransfer) -> (cycles: u64)
        ensures
            final(self)@ == old(self)@.push(transfer),
            cycles == latency(transfer),
    {
        self.in_flight.push(transfer);
        if transfer.words == 0 {
            1
        } else {
            transfer.words as u64
        }
    }

    fn position(&self, channel: u8) -> (index: Option<usize>)
        ensures
            match index {
                Some(i) => first_on_channel(self@, channel, 0) == Some(i as int) && i < self@.len(),
                None => first_on_channel(self@, channel, 0) is None,
            },
    {
        let mut i: usize = 0;
        while i < self.in_flight.len()
            invariant
                i <= self.in_flight@.len(),
                first_on_channel(self@, channel, 0) == first_on_channel(self@, channel, i as int),
            decreases self.in_flight@.len() - i,
        {
            if self.in_flight[i].channel == channel {
                return Some(i);
            }
            i += 1;
        }
        None
    }

    /// Completes the oldest transfer queued on `channel`, if there is one, and
    /// says whether it did.
    pub fn complete_transfer(&mut self, channel: u8, memory: &mut Memory, gpu: &mut PicaGpu) -> (done:
        bool)
        ensures
            done == completion(old(self)@, channel, old(memory)@, old(gpu)@).done,
            final(self)@ == completion(old(self)@, channel, old(memory)@, old(gpu)@).queue,
            final(memory)@ == completion(old(self)@, channel, old(memory)@, old(gpu)@).memory,
            final(gpu)@ == completion(old(self)@, channel, old(memory)@, old(gpu)@).gpu,
    {
        let idx = match self.position(channel) {
            Some(idx) => idx,
            None => {
                return false;
            },
        };
        let transfer = self.in_flight.remove(idx);
        match transfer.kind {
            DmaTransferKind::MemoryToMemory => {
                let mut word: u32 = 0;
                while word < transfer.words
                    invariant
                        word <= transfer.words,
                        memory@ == copied(
                            old(memory)@,
                            transfer.source,
                            transfer.destination,
                            word as nat,
                        ),
                    decreases transfer.words - word,
                {
                    let src = transfer.source.wrapping_add(word.wrapping_mul(4));
                    let dst = transfer.destination.wrapping_add(word.wrapping_mul(4));
                    let value = memory.read_u32(src);
                    memory.write_u32(dst, value);
                    word += 1;
                }
            },
            DmaTransferKind::GpuQueueFeed => {
                let mut words: Vec<u32> = Vec::new();
                let mut word: u32 = 0;
                while word < transfer.words
                    invariant
                        word <= transfer.words,
                        words@ == fetched(memory@, transfer.source, word as nat),
                    decreases transfer.words - word,
                {
                    let src = transfer.source.wrapping_add(word.wrapping_mul(4));
                    words.push(memory.read_u32(src));
                    assert(words@ =~= fetched(memory@, transfer.source, (word + 1) as nat));
                    word += 1;
                }
                gpu.enqueue_gsp_fifo_words(words.as_slice());
            },
        }
        true
    }
}

impl Default for DmaEngine {
    fn default() -> (dma: Self)
        ensures
            dma@ == Seq::<DmaTransfer>::empty(),
    {
        DmaEngine::new()
    }
}

} // verus!

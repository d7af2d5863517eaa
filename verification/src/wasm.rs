use vstd::prelude::*;
use crate::pica::FRAME_PIXELS;
use crate::diagnostics::{BootCheckpointSnapshot, FaultSnapshot};
use crate::emulator::{Emulator3ds, EmulatorConfig, EmulatorModel};
use crate::error::EmulatorError;
use crate::memory::{read_byte_or_zero, read_word_or_zero, write_byte, write_word};
use crate::pica::state::GpuModel;
use crate::report::{diagnostics_json_text, message_text, state_json_text};
use crate::timing::{DriftCorrectionPolicy, TimingState};

verus! {

/// The host API: the emulator behind plain values, with errors as text.
pub struct Wasm3ds {
    inner: Emulator3ds,
}

impl View for Wasm3ds {
    type V = EmulatorModel;

    closed spec fn view(&self) -> EmulatorModel {
        self.inner@
    }
}

/// A result with its error, if it has one, as text.
pub open spec fn described<T>(result: Result<T, EmulatorError>, text: Result<T, String>) -> bool {
    match result {
        Ok(value) => text matches Ok(v) && v == value,
        Err(e) => text matches Err(message) && message@ == message_text(e),
    }
}

fn describe<T>(result: Result<T, EmulatorError>) -> (text: Result<T, String>)
    ensures
        described(result, text),
{
    match result {
        Ok(value) => Ok(value),
        Err(e) => Err(e.message()),
    }
}

impl Wasm3ds {
    /// A host façade around a fresh emulator.
    pub fn new() -> (host: Self)
        ensures
            host@ == EmulatorModel::initial(EmulatorConfig { max_cycle_budget: 5_000_000 }),
    {
        Wasm3ds { inner: Emulator3ds::new() }
    }

    /// Loads and installs a ROM image; an error is handed out as its message.
    pub fn load_rom(&mut self, rom: &[u8]) -> (result: Result<(), String>)
        ensures
            final(self)@ == old(self)@.rom_loaded(rom@).emulator,
            match old(self)@.rom_loaded(rom@).fatal {
                None => result is Ok,
                Some(e) => result matches Err(message) && message@ == message_text(e),
            },
    {
        match self.inner.load_rom(rom) {
            Ok(_) => Ok(()),
            Err(e) => Err(e.message()),
        }
    }

    /// Loads a title package, or a bare ROM image; an error is handed out as its
    /// message.
    pub fn load_title_package(&mut self, package: &[u8]) -> (result: Result<(), String>)
        ensures
            final(self)@ == old(self)@.title_loaded(package@).emulator,
            match old(self)@.title_loaded(package@).fatal {
                None => result is Ok,
                Some(e) => result matches Err(message) && message@ == message_text(e),
            },
    {
        match self.inner.load_title_package(package) {
            Ok(_) => Ok(()),
            Err(e) => Err(e.message()),
        }
    }

    /// Runs up to `cycles` cycles and returns the cycles executed, or the message
    /// of the first fatal condition.
    pub fn run_cycles(&mut self, cycles: u32) -> (result: Result<u32, String>)
        ensures
            final(self)@ == old(self)@.cycles_run(cycles).emulator,
            described(old(self)@.cycles_run(cycles).result, result),
    {
        describe(self.inner.run_cycles(cycles))
    }

    /// Sets the lead and lag thresholds of the drift policy, in microseconds.
    pub fn set_drift_policy(&mut self, max_frame_lead_us: i64, max_frame_lag_us: i64)
        ensures
            final(self)@ == (EmulatorModel {
                timing: TimingState {
                    drift_policy: DriftCorrectionPolicy { max_frame_lead_us, max_frame_lag_us },
                    ..old(self)@.timing
                },
                ..old(self)@
            }),
    {
        self.inner.set_wasm_drift_policy(
            DriftCorrectionPolicy { max_frame_lead_us, max_frame_lag_us },
        );
    }

    /// Sets the host time from which drift is measured, in microseconds.
    pub fn set_wall_time_anchor_us(&mut self, host_wall_time_us: u64)
        ensures
            final(self)@ == (EmulatorModel {
                timing: TimingState { wall_time_anchor_us: host_wall_time_us, ..old(self)@.timing },
                ..old(self)@
            }),
    {
        self.inner.set_wasm_wall_time_anchor_us(host_wall_time_us);
    }

    /// Runs the budget that the drift policy recommends for the host's clock.
    pub fn run_cycles_synced(&mut self, requested_cycles: u32, host_wall_time_us: u64) -> (result:
        Result<u32, String>)
        ensures
            final(self)@ == old(self)@.cycles_run(
                old(self)@.capped(old(self)@.timing.budget(host_wall_time_us, requested_cycles)),
            ).emulator,
            described(
                old(self)@.cycles_run(
                    old(self)@.capped(old(self)@.timing.budget(host_wall_time_us, requested_cycles)),
                ).result,
                result,
            ),
    {
        describe(self.inner.run_cycles_synced(requested_cycles, host_wall_time_us))
    }

    /// Hands out the audio samples produced so far and leaves none behind.
    pub fn take_audio_samples(&mut self) -> (samples: Vec<i16>)
        ensures
            samples@ == old(self)@.dsp.samples,
            final(self)@ == (EmulatorModel {
                dsp: crate::dsp::DspState { samples: Seq::empty(), ..old(self)@.dsp },
                ..old(self)@
            }),
    {
        self.inner.take_audio_samples()
    }

    /// Hands out the number of frames presented since the last call.
    pub fn take_frame_present_count(&mut self) -> (count: u64)
        ensures
            count == old(self)@.frame_callbacks,
            final(self)@ == (EmulatorModel { frame_callbacks: 0, ..old(self)@ }),
    {
        self.inner.take_frame_present_count()
    }

    /// Hands out the number of audio samples produced since the last call.
    pub fn take_audio_sample_count(&mut self) -> (count: u64)
        ensures
            count == old(self)@.audio_callbacks,
            final(self)@ == (EmulatorModel { audio_callbacks: 0, ..old(self)@ }),
    {
        self.inner.take_audio_sample_count()
    }

    /// Appends raw words to the FIFO of the GPU.
    pub fn enqueue_gpu_fifo_words(&mut self, words: &[u32])
        ensures
            final(self)@ == (EmulatorModel {
                gpu: GpuModel { fifo: old(self)@.gpu.fifo + words@, ..old(self)@.gpu },
                ..old(self)@
            }),
    {
        self.inner.enqueue_gpu_fifo_words(words);
    }

    /// Reads a byte of physical memory; zero where nothing is mapped.
    pub fn read_phys_u8(&self, addr: u32) -> (value: u8)
        ensures
            value == read_byte_or_zero(self@.memory, addr),
    {
        self.inner.read_phys_u8(addr)
    }

    /// Writes a byte of physical memory; dropped where nothing writable is mapped.
    pub fn write_phys_u8(&mut self, addr: u32, value: u8)
        ensures
            final(self)@ == (EmulatorModel {
                memory: write_byte(old(self)@.memory, addr, value),
                ..old(self)@
            }),
    {
        self.inner.write_phys_u8(addr, value);
    }

    /// Reads a little-endian word of physical memory; unmapped bytes read as zero.
    pub fn read_phys_u32(&self, addr: u32) -> (value: u32)
        ensures
            value == read_word_or_zero(self@.memory, addr),
    {
        self.inner.read_phys_u32(addr)
    }

    /// Writes a little-endian word of physical memory, byte by byte.
    pub fn write_phys_u32(&mut self, addr: u32, value: u32)
        ensures
            final(self)@ == (EmulatorModel {
                memory: write_word(old(self)@.memory, addr, value),
                ..old(self)@
            }),
    {
        self.inner.write_phys_u32(addr, value);
    }

    /// Total length of the mapped segments, saturating.
    pub fn mapped_memory_bytes(&self) -> (total: usize)
        ensures
            total == if crate::memory::mapped_bytes(self@.memory, self@.memory.len() as int)
                > usize::MAX {
                usize::MAX as int
            } else {
                crate::memory::mapped_bytes(self@.memory, self@.memory.len() as int)
            },
    {
        self.inner.mapped_memory_bytes()
    }

    /// The framebuffer as little-endian RGBA bytes.
    pub fn frame_rgba(&self) -> (bytes: Vec<u8>)
        ensures
            bytes@ == self@.gpu.frame_bytes(),
            bytes@.len() == 4 * FRAME_PIXELS,
    {
        self.inner.frame_rgba()
    }

    /// The state of the emulator as JSON text.
    pub fn state_json(&self) -> (text: String)
        ensures
            text@ == state_json_text(self@),
    {
        self.inner.state_json()
    }

    /// The diagnostics of the emulator as JSON text.
    pub fn diagnostics_json(&self) -> (text: String)
        ensures
            text@ == diagnostics_json_text(self@),
    {
        self.inner.diagnostics_json()
    }

    /// The newest `limit` fault snapshots, oldest first.
    pub fn recent_fault_snapshots(&self, limit: usize) -> (snapshots: Vec<FaultSnapshot>)
        ensures
            snapshots@ == self@.fault_snapshots.recent(limit),
    {
        self.inner.recent_fault_snapshots(limit)
    }

    /// The boot checkpoints reached so far, and where the boot left the expected
    /// order.
    pub fn boot_checkpoint_snapshot(&self) -> (snapshot: BootCheckpointSnapshot)
        ensures
            snapshot.events@ == self@.boot_profiler.observed,
            snapshot.divergence_at == self@.boot_profiler.divergence_at,
    {
        self.inner.boot_checkpoint_snapshot()
    }

    /// Resets the machine: memory is zeroed and no image is installed.
    pub fn reset(&mut self)
        ensures
            final(self)@ == old(self)@.reset(),
    {
        self.inner.reset();
    }
}

impl Default for Wasm3ds {
    fn default() -> (host: Self)
        ensures
            host@ == EmulatorModel::initial(EmulatorConfig { max_cycle_budget: 5_000_000 }),
    {
        Wasm3ds::new()
    }
}

} // verus!

pub mod bits;
pub mod boot;
pub mod bus;
pub mod cpu;
pub mod diagnostics;
pub mod dma;
pub mod dsp;
pub mod emulator;
pub mod error;
pub mod fs;
pub mod ipc;
pub mod irq;
pub mod kernel;
pub mod loader;
pub mod memory;
pub mod mmu;
pub mod pica;
pub mod report;
pub mod rom;
pub mod scheduler;
pub mod services;
pub mod text;
pub mod timing;
pub mod trace;
pub mod wasm;

pub use crate::cpu::{CpuException, CpuRunState, ExceptionKind};
pub use crate::emulator::{Emulator3ds, EmulatorConfig, EmulatorState};
pub use crate::error::EmulatorError;
pub use crate::kernel::{ServiceCall, ServiceEvent};
pub use crate::timing::{DriftCorrectionPolicy, TimingSnapshot};
pub use crate::trace::{
    BootCheckpoint, BootCheckpointSnapshot, FaultSnapshot, StructuredError, TraceCategory,
    TracePayload, TraceRecord,
};
pub use crate::wasm::Wasm3ds;

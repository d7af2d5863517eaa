pub use crate::diagnostics::{
    BootCheckpoint, BootCheckpointProfiler, BootCheckpointSnapshot, FaultSnapshot, RingBuffer,
    StructuredError, TraceCategory, TracePayload, TraceRecord,
};

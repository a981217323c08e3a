//! Access validation and per-cycle instrumentation for a register-based
//! emulator whose execution trace is later arithmetized over the Baby Bear
//! field.

pub mod access;
pub mod address;
pub mod runtime;
pub mod tracer;

pub use access::{validate_access, AccessFault, AccessKind, Register};
pub use address::align;
pub use runtime::{union_registers, CycleLog, ExecutionState, Instruction, Runtime};
pub use tracer::push_be_bytes;

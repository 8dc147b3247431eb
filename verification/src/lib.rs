//! A user-space, stackful green-thread runtime, verified at its core.
//!
//! The library holds the scheduler's bookkeeping as verified state machines:
//! the register/continuation model, the stack layout with its guard page, the
//! round-robin run queue with the live-id set, the run facade with its
//! single-active-run flag, the cooperative checkpoint decision, and a FIFO
//! batch-task runner. The machine-level work that Verus cannot look at --
//! the architecture-specific transfer routines, the page allocation and
//! protection, and the signal-driven timer -- is performed by the embedding
//! program, which drives these state machines and carries out the actions
//! they return.

pub mod context;
pub mod cooperative;
pub mod error;
pub mod runtime;
pub mod scheduler;
pub mod timer;
pub mod types;

pub use context::Context;
pub use context::Registers;
pub use cooperative::CooperativeScheduler;
pub use error::Error;
pub use runtime::HandoffAction;
pub use runtime::Runtime;
pub use scheduler::ConfigBuilder;
pub use scheduler::Lachesis;
pub use timer::check_preemption;
pub use types::SchedulerConfig;
pub use types::ThreadId;
pub use types::ThreadInfo;
pub use types::ThreadState;

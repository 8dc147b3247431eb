use vstd::prelude::*;

verus! {

/// Errors of the scheduler API.
///
/// Lifecycle misuse (`AlreadyInitialized`, `NotInitialized`) and bad
/// configuration (`InvalidStackSize`, `Configuration`) are not recoverable:
/// the caller must fix the call order or the configuration. Resource and
/// concurrency errors are recoverable in principle: the caller may retry.
#[derive(Debug)]
pub enum Error {
    /// A run is already active on this scheduler.
    AlreadyInitialized,
    /// No run is active, so there is no runtime state to operate on.
    NotInitialized,
    /// No live green thread has the given id.
    ThreadNotFound(u64),
    /// A deadlock was detected in an auxiliary synchronized structure.
    Deadlock,
    /// A lock of an auxiliary synchronized structure could not be acquired.
    LockFailed,
    /// The requested stack size is below the fixed floor.
    InvalidStackSize { size: usize, min: usize },
    /// A green thread could not be spawned.
    SpawnFailed,
    /// The operating system refused a resource.
    SystemResource(String),
    /// The configuration is invalid for a reason other than the stack size.
    Configuration(String),
}

impl Error {
    /// Whether a caller may retry the failed operation, possibly with
    /// different parameters.
    pub open spec fn spec_is_recoverable(&self) -> bool {
        match self {
            Error::AlreadyInitialized => false,
            Error::NotInitialized => false,
            Error::InvalidStackSize { .. } => false,
            Error::Configuration(_) => false,
            Error::ThreadNotFound(_) => true,
            Error::Deadlock => true,
            Error::LockFailed => true,
            Error::SpawnFailed => true,
            Error::SystemResource(_) => true,
        }
    }

    /// Lifecycle-misuse and configuration errors are final; resource and
    /// concurrency errors may be retried.
    pub fn is_recoverable(&self) -> (r: bool)
        ensures
            r == self.spec_is_recoverable(),
    {
        match self {
            Error::AlreadyInitialized => false,
            Error::NotInitialized => false,
            Error::InvalidStackSize { .. } => false,
            Error::Configuration(_) => false,
            Error::ThreadNotFound(_) => true,
            Error::Deadlock => true,
            Error::LockFailed => true,
            Error::SpawnFailed => true,
            Error::SystemResource(_) => true,
        }
    }
}

} // verus!

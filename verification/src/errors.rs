use vstd::prelude::*;

verus! {

/// Errors surfaced by the scheduling kernel, one variant per failure class.
///
/// Failures local to one process (`Trap`, `OutOfFuel`, `InstantiationFailed`)
/// never terminate the scheduler or other processes; they are recorded in the
/// lifecycle tracker and handed back to whoever awaits that process.
#[derive(Debug, Clone, PartialEq, Eq)]
pub enum SchedulerError {
    /// Malformed or unsupported bytecode was handed to registration.
    CompilationFailed,
    /// A spawn or template lookup named an unregistered module id.
    UnknownModule,
    /// Turning a template into a runnable instance failed.
    InstantiationFailed,
    /// The sandboxed code raised a runtime fault; the engine's message is kept.
    Trap(String),
    /// The cooperative fuel budget ran out with no further grant.
    OutOfFuel,
    /// A spawn was requested after the dispatch queue shut down.
    SchedulerClosed,
}

} // verus!

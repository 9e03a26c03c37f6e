//! The three families of failure: a task set that cannot be scheduled, a
//! driver call that cannot be carried out, and a condition no task handles.

use vstd::prelude::*;

verus! {

/// A task set or an initialisation that must not reach a runnable state.
#[derive(Clone, Copy, Debug, PartialEq, Eq, Structural)]
pub enum ConfigurationError {
    /// The identifier is declared more than once, for different peripherals.
    ConflictingResource { id: u8 },
    /// The task at this index asks for priority 0, which belongs to idle.
    ReservedPriority { task: usize },
    /// The task at this index is bound to a trigger that an earlier task has.
    DuplicateTrigger { task: usize },
    /// The task at this index lists a resource nobody declared.
    UndeclaredResource { task: usize, resource: u8 },
    /// The resource is declared and no task accesses it.
    DeadResource { id: u8 },
    /// A handle was offered for a resource nobody declared.
    UnknownHandle { id: u8 },
    /// A handle was offered for a peripheral other than the declared one.
    MismatchedHandle { id: u8 },
    /// A handle was offered twice for the same resource.
    HandleAlreadyBound { id: u8 },
    /// Initialisation is over; handles can no longer be bound.
    InitializationComplete,
    /// Initialisation ended while this resource still had no handle.
    UnboundResource { id: u8 },
}

/// A driver call that was refused. Nothing is written when one is returned.
#[derive(Clone, Copy, Debug, PartialEq, Eq, Structural)]
pub enum DriverError {
    /// A channel or pin-interrupt number outside 0..=7.
    InvalidChannel,
    /// A sensing mode paired with an event it cannot detect.
    InvalidCombination,
    /// A clock divider that is 0 or above the clock it divides.
    InvalidDivider,
    /// A watchdog oscillator divider below 2.
    DividerTooSmall,
    /// A watchdog oscillator divider above 64.
    DividerTooLarge,
    /// A PLL post-divider selector above 3.
    InvalidPostDivider,
    /// A watchdog time-out above 24 bits.
    InvalidTimerConstant,
    /// A watchdog warning value above 10 bits.
    InvalidWarningValue,
    /// No buffer was given.
    NullBuffer,
    /// The hardware has not finished; ask again.
    NotReady,
    /// The operation exists in name only.
    NotImplemented,
}

/// A condition that no task handles. It is always fatal.
#[derive(Clone, Copy, Debug, PartialEq, Eq, Structural)]
pub enum FaultCondition {
    /// A trigger fired that no task is bound to.
    UnhandledTrigger { trigger: u16 },
    /// The handler of the task bound to this trigger failed.
    TaskFailure { trigger: u16, error: DriverError },
}

} // verus!

//! Logical priorities and what the core is told about them.
//!
//! A logical priority grows with urgency; the number the core keeps for an
//! interrupt shrinks with it, and only its upper bits count. This module
//! turns the one into the other, and a threshold into the masking that lets
//! through exactly the priorities above it.

use vstd::prelude::*;

verus! {

/// Number of priority bits the interrupt controller implements.
pub const PRIORITY_BITS: u8 = 3;

/// Number of priority levels: the logical priorities are 1 up to this.
pub const PRIORITY_LEVELS: u8 = 8;

/// What one logical level is worth in the core's priority byte.
pub const LEVEL_STEP: u8 = 32;

/// What the core is told so that a threshold holds.
#[derive(Clone, Copy, Debug, PartialEq, Eq, Structural)]
pub enum Masking {
    /// Nothing is masked.
    Open,
    /// Interrupts whose priority number is at least `value` are masked.
    BasePriority { value: u8 },
    /// Every interrupt is masked.
    Closed,
}

/// The priority number the core keeps for a logical priority.
pub open spec fn priority_number(logical: u8) -> int {
    (PRIORITY_LEVELS - logical) * LEVEL_STEP
}

/// The masking for a threshold.
pub open spec fn masking_of(threshold: u8) -> Masking {
    if threshold == 0 {
        Masking::Open
    } else if threshold >= PRIORITY_LEVELS {
        Masking::Closed
    } else {
        Masking::BasePriority { value: priority_number(threshold) as u8 }
    }
}

/// Whether a masking keeps back an interrupt with the given priority number.
pub open spec fn masks(masking: Masking, number: int) -> bool {
    match masking {
        Masking::Open => false,
        Masking::BasePriority { value } => number >= value,
        Masking::Closed => true,
    }
}

/// The priority number the core keeps for a logical priority; `None` for a
/// priority the controller has no level for.
pub fn hardware_priority(logical: u8) -> (r: Option<u8>)
    ensures
        r == (if 1 <= logical <= PRIORITY_LEVELS {
            Some(priority_number(logical) as u8)
        } else {
            None
        }),
        r matches Some(number) ==> number == priority_number(logical),
{
    if logical >= 1 && logical <= PRIORITY_LEVELS {
        Some((PRIORITY_LEVELS - logical) * LEVEL_STEP)
    } else {
        None
    }
}

/// The masking for a threshold.
pub fn masking(threshold: u8) -> (m: Masking)
    ensures
        m == masking_of(threshold),
{
    if threshold == 0 {
        Masking::Open
    } else if threshold >= PRIORITY_LEVELS {
        Masking::Closed
    } else {
        Masking::BasePriority { value: (PRIORITY_LEVELS - threshold) * LEVEL_STEP }
    }
}

/// The masking for a threshold keeps back exactly the priorities that do not
/// outrank the threshold.
pub proof fn lemma_masking_is_the_preemption_rule(threshold: u8, logical: u8)
    requires
        1 <= logical <= PRIORITY_LEVELS,
    ensures
        masks(masking_of(threshold), priority_number(logical)) <==> logical <= threshold,
{
}

/// A more urgent logical priority has a smaller priority number.
pub proof fn lemma_priority_numbers_fall(low: u8, high: u8)
    requires
        1 <= low < high <= PRIORITY_LEVELS,
    ensures
        priority_number(high) < priority_number(low),
        0 <= priority_number(high),
        priority_number(low) <= 224,
{
}

} // verus!

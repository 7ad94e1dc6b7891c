//! # Reentrancy guard
//!
//! The escrow contract keeps a `u32` flag in its instance storage. Entering a
//! guarded section sets the flag to `ENTERED`; a nested entry while the flag
//! is set is a re-entrant call, which aborts the contract invocation with
//! "Reentrancy detected". Leaving resets the flag to `NOT_ENTERED`. Non-zero
//! values are used so that a missing flag (the storage default) is never
//! confused with either state; a missing flag counts as `NOT_ENTERED`.
//!
//! This module decides on the value of that storage slot; reading and writing
//! the contract's storage, and aborting the invocation, are left to the
//! caller, which tests `guard_held` first and aborts where it is `true`.
use vstd::prelude::*;

verus! {

/// Flag value when no guarded section is running.
pub const NOT_ENTERED: u32 = 1;

/// Flag value while a guarded section is running.
pub const ENTERED: u32 = 2;

/// The guard's storage slot: the stored flag, or `None` when nothing has
/// been stored yet.
#[derive(Debug, Clone, Copy, PartialEq, Eq, Structural)]
pub struct ReentrancyGuard {
    pub stored: Option<u32>,
}

/// The flag that a slot stands for; a missing flag reads as `NOT_ENTERED`.
pub open spec fn status_of(stored: Option<u32>) -> u32 {
    match stored {
        Some(v) => v,
        None => NOT_ENTERED,
    }
}

/// The guard is held unless its flag reads `NOT_ENTERED`.
pub open spec fn is_held(stored: Option<u32>) -> bool {
    status_of(stored) != NOT_ENTERED
}

/// Returns `true` while the guard is held, that is when a call to `acquire`
/// would be re-entrant and must abort with "Reentrancy detected".
pub fn guard_held(guard: &ReentrancyGuard) -> (r: bool)
    ensures
        r == is_held(guard.stored),
{
    let status: u32 = guard.stored.unwrap_or(NOT_ENTERED);
    status != NOT_ENTERED
}

/// Acquire the reentrancy guard: sets the flag to `ENTERED`.
///
/// Acquiring a held guard is a re-entrant call, on which the contract aborts
/// with "Reentrancy detected" without writing anything; such a call is left
/// out here, and the caller tests `guard_held` before.
pub fn acquire(guard: &mut ReentrancyGuard)
    requires
        !is_held(old(guard).stored),
    ensures
        final(guard).stored == Some(ENTERED),
{
    guard.stored = Some(ENTERED);
}

/// Release the reentrancy guard: resets the flag to `NOT_ENTERED`.
pub fn release(guard: &mut ReentrancyGuard)
    ensures
        final(guard).stored == Some(NOT_ENTERED),
{
    guard.stored = Some(NOT_ENTERED);
}

/// A slot where nothing has been stored yet is free, so the guard can be
/// acquired.
pub proof fn law_fresh_guard_is_free()
    ensures
        !is_held(None),
{
}

/// Once acquired, the guard is held: a nested acquire before a release is
/// re-entrant and aborts.
pub proof fn law_acquired_guard_is_held(stored: Option<u32>)
    requires
        !is_held(stored),
    ensures
        is_held(Some(ENTERED)),
{
}

/// After a release the guard is free again, whatever the slot held before:
/// the flag cannot get stuck.
pub proof fn law_released_guard_is_free()
    ensures
        !is_held(Some(NOT_ENTERED)),
{
}

/// Every stored value other than `NOT_ENTERED` counts as held.
pub proof fn law_held_iff_not_not_entered(v: u32)
    ensures
        is_held(Some(v)) <==> v != NOT_ENTERED,
{
}

} // verus!

//! A flag that refuses an operation while another one is still running.

use vstd::prelude::*;

verus! {

/// Reentrancy guard utility to prevent recursive calls
pub struct ReentrancyGuard;

impl ReentrancyGuard {
    /// Runs `f` with the guard held: refuses with `error` when the guard is
    /// already held, and clears the guard after `f` whatever `f` returned.
    pub fn with_guard<F, R, E>(active: &mut bool, error: E, f: F) -> (r: Result<R, E>) where
        F: FnOnce() -> Result<R, E>,

        requires
            !*old(active) ==> f.requires(()),
        ensures
            *old(active) ==> r == Err::<R, E>(error) && *final(active),
            !*old(active) ==> f.ensures((), r) && !*final(active),
    {
        if *active {
            return Err(error);
        }
        *active = true;
        let result = f();
        *active = false;
        result
    }

    /// Check if reentrancy guard is currently active
    pub fn is_guard_active(active: &bool) -> (r: bool)
        ensures
            r == *active,
    {
        *active
    }

    /// Force clear the reentrancy guard
    pub fn force_clear_guard(active: &mut bool)
        ensures
            !*final(active),
    {
        *active = false;
    }
}

} // verus!

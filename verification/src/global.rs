//! State shared by every part of the program.
//!
//! There is one piece of it: a flag that says whether addresses are to be
//! scanned in the background. It sits behind a lock, so it can be read and
//! set through a shared reference from any thread. The lock is never held
//! for longer than one read or one write. If the lock has been poisoned (a
//! thread panicked while holding it) the flag stays usable in a degraded
//! way: it reads as off, and setting it does nothing.

use std::sync::Mutex;
use vstd::prelude::*;

verus! {

/// The standard library's lock. Nothing is known of what it holds: another
/// thread may change that between any two looks.
#[verifier::external_type_specification]
#[verifier::external_body]
#[verifier::reject_recursive_types(T)]
pub struct ExMutex<T: ?Sized>(Mutex<T>);

/// The shared state.
///
/// The lock is not handed out: whoever held its guard and then asked for the
/// flag on the same thread would wait for ever.
#[derive(Debug)]
pub struct Global {
    scan_ips_in_background: Mutex<bool>,
}

/// The value a lock was made around. It is a fact of the lock's making, which
/// no later write changes; it says nothing of what the lock holds now.
pub uninterp spec fn made_with(lock: Mutex<bool>) -> bool;

/// What one look at the flag under the lock brought: the flag, or nothing if
/// the lock could not be had.
pub open spec fn reading(seen: Option<bool>) -> bool {
    seen == Some(true)
}

/// `Mutex::new`: a fresh lock, made around `value`.
#[verifier::external_body]
fn new_lock(value: bool) -> (lock: Mutex<bool>)
    ensures
        made_with(lock) == value,
{
    Mutex::new(value)
}

/// `Mutex::lock`, to read: takes the lock and hands back what it guards, or
/// nothing if the lock is poisoned. What comes back is whatever the flag is
/// at that moment, so nothing is promised of it.
#[verifier::external_body]
fn read_locked(lock: &Mutex<bool>) -> Option<bool> {
    match lock.lock() {
        Ok(guard) => Some(*guard),
        Err(_) => None,
    }
}

/// `Mutex::lock`, to write: takes the lock and puts `value` behind it, and
/// says whether the lock could be had. A poisoned lock is left as it is.
#[verifier::external_body]
fn write_locked(lock: &Mutex<bool>, value: bool) -> bool {
    match lock.lock() {
        Ok(mut guard) => {
            *guard = value;
            true
        },
        Err(_) => false,
    }
}

/// The value the flag is taken to have after one look at it: what was seen,
/// and off if the lock could not be had.
pub fn flag_or_default(seen: Option<bool>) -> (flag: bool)
    ensures
        flag == reading(seen),
{
    match seen {
        Some(value) => value,
        None => false,
    }
}

impl Default for Global {
    /// The shared state at program start: background scanning off.
    fn default() -> (global: Global)
        ensures
            !global.starts_scanning(),
    {
        Global { scan_ips_in_background: new_lock(false) }
    }
}

impl Global {
    /// Whether background scanning was on when this state was made.
    pub closed spec fn starts_scanning(&self) -> bool {
        made_with(self.scan_ips_in_background)
    }

    /// Switches background scanning on or off. Does nothing if the lock is
    /// poisoned.
    pub fn set_scan_ips_in_background(&self, val: bool) {
        let _ = write_locked(&self.scan_ips_in_background, val);
    }

    /// Whether background scanning is on. Off if the lock is poisoned.
    pub fn get_scan_ips_in_background(&self) -> bool {
        flag_or_default(read_locked(&self.scan_ips_in_background))
    }
}

} // verus!

//! Mutual-exclusion primitive usable with no thread scheduler.
//!
//! A [`Mutex`] owns a lock flag together with the value it protects. The value
//! is reachable only through a [`MutexGuard`], which a successful acquisition
//! hands out; while the guard is live the mutex itself holds nothing, so no
//! code path can read or write the value without first taking the lock.
//! Handing the guard back through [`Mutex::unlock`] releases the flag and
//! returns the value to the mutex.

use vstd::prelude::*;
use vstd::string::StringExecFns;

verus! {

/// Failure raised by [`Mutex::lock`] after exhausting its bounded retry
/// budget with no successful acquisition. Carries no payload beyond the
/// fact of failure.
#[derive(Debug, PartialEq, Eq, Structural)]
pub struct LockError;

impl LockError {
    /// A short description of the failure.
    pub fn message(&self) -> (s: String)
        ensures
            s@ == "Failed to aquire lock"@,
    {
        String::from_str("Failed to aquire lock")
    }
}

/// Number of acquisition attempts [`Mutex::lock`] makes before reporting
/// [`LockError`]. The budget is fixed, not caller-configurable: the bounded
/// busy-wait is a placeholder for a future blocking wait/wake primitive.
pub const LOCK_ATTEMPTS: usize = 100;

/// Mutual-exclusion primitive: a lock flag plus exclusively owned payload.
///
/// The payload is not accessible through the `Mutex` itself. Instead a
/// [`MutexGuard`] must be acquired with [`Mutex::try_lock`] or
/// [`Mutex::lock`] and then dereferenced; at most one guard is outstanding
/// at any time.
pub struct Mutex<T> {
    locked: bool,
    data: Option<T>,
}

/// Scoped handle granting exclusive access to the payload of the [`Mutex`]
/// it was acquired from. Only a successful acquisition constructs one, and
/// giving it back through [`Mutex::unlock`] releases the lock.
pub struct MutexGuard<T> {
    data: T,
}

impl<T> MutexGuard<T> {
    /// The payload this guard grants access to.
    pub closed spec fn value(self) -> T {
        self.data
    }

    /// Read access to the payload.
    pub fn deref(&self) -> (r: &T)
        ensures
            *r == self.value(),
    {
        &self.data
    }

    /// Write access to the payload.
    pub fn deref_mut(&mut self) -> (r: &mut T)
        ensures
            *r == old(self).value(),
            final(self).value() == *final(r),
    {
        &mut self.data
    }
}

impl<T> Mutex<T> {
    /// While unlocked the mutex owns its payload; while locked the payload
    /// is out with the unique guard.
    #[verifier::type_invariant]
    spec fn wf(self) -> bool {
        self.locked <==> (self.data is None)
    }

    /// Whether the lock flag is set, i.e. a guard is outstanding.
    pub closed spec fn is_locked(self) -> bool {
        self.locked
    }

    /// The protected payload; meaningful while the mutex is unlocked.
    pub closed spec fn value(self) -> T
        recommends
            !self.is_locked(),
    {
        self.data->0
    }

    /// Creates a new mutex in an unlocked state ready for use.
    pub fn new(t: T) -> (m: Mutex<T>)
        ensures
            !m.is_locked(),
            m.value() == t,
    {
        Mutex { locked: false, data: Some(t) }
    }

    /// Builds a [`MutexGuard`] around a payload taken out of the mutex.
    /// Used only once the lock has been acquired.
    fn as_guard(t: T) -> (g: MutexGuard<T>)
        ensures
            g.value() == t,
    {
        MutexGuard { data: t }
    }

    /// Attempts to acquire the mutex with a single test of the flag.
    ///
    /// Succeeds and hands out the unique guard exactly when the mutex is
    /// unlocked; on a held lock it returns `None` with no observable side
    /// effect, and it never blocks or retries internally.
    pub fn try_lock(&mut self) -> (r: Option<MutexGuard<T>>)
        ensures
            match r {
                Some(g) => !old(self).is_locked() && final(self).is_locked()
                    && g.value() == old(self).value(),
                None => old(self).is_locked() && *final(self) == *old(self),
            },
    {
        proof {
            use_type_invariant(&*self);
        }
        if self.locked {
            None
        } else {
            let mut taken = Mutex { locked: true, data: None };
            core::mem::swap(self, &mut taken);
            let t = taken.data.unwrap();
            Some(Self::as_guard(t))
        }
    }

    /// Acquires the mutex, retrying [`try_lock`](Mutex::try_lock) up to
    /// [`LOCK_ATTEMPTS`] times.
    ///
    /// Returns the first successful guard; if every attempt finds the lock
    /// held it reports [`LockError`] instead of blocking indefinitely.
    pub fn lock(&mut self) -> (r: Result<MutexGuard<T>, LockError>)
        ensures
            match r {
                Ok(g) => !old(self).is_locked() && final(self).is_locked()
                    && g.value() == old(self).value(),
                Err(_) => old(self).is_locked() && *final(self) == *old(self),
            },
    {
        let mut attempt: usize = 0;
        while attempt < LOCK_ATTEMPTS
            invariant
                attempt <= LOCK_ATTEMPTS,
                *self == *old(self),
                attempt > 0 ==> old(self).is_locked(),
            decreases LOCK_ATTEMPTS - attempt,
        {
            match self.try_lock() {
                Some(guard) => {
                    return Ok(guard);
                },
                None => {
                    // No wait/wake primitive exists at this layer: busy-retry.
                },
            }
            attempt = attempt + 1;
        }
        Err(LockError)
    }

    /// Releases the mutex, storing the guard's payload back behind the
    /// cleared flag. After this the next acquisition succeeds and observes
    /// every write made through the guard.
    pub fn unlock(&mut self, guard: MutexGuard<T>)
        requires
            old(self).is_locked(),
        ensures
            !final(self).is_locked(),
            final(self).value() == guard.value(),
    {
        *self = Mutex { locked: false, data: Some(guard.data) };
    }
}

} // verus!

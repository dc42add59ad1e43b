//! A mutual-exclusion container that pins its protected value.
//!
//! `PinLock<T>` owns a value behind a blocking mutual-exclusion primitive and
//! additionally guarantees that the value's memory location never changes for
//! as long as the container lives: the lock can only be acquired through a
//! pinned reference to the container, and mutable access to the protected
//! value is handed out pinned as well. This lets callers build and maintain
//! address-sensitive state under the lock while sharing it across threads.

use vstd::prelude::*;

use std::pin::Pin;
use std::sync::Mutex;
use std::sync::MutexGuard;

verus! {

/// Declares `std::sync::Mutex` to the verifier. The protected value is
/// reached only through the trusted wrappers below.
#[verifier::external_type_specification]
#[verifier::external_body]
#[verifier::reject_recursive_types(T)]
pub struct ExMutex<T: ?Sized>(Mutex<T>);

/// Declares `std::sync::MutexGuard` to the verifier.
#[verifier::external_type_specification]
#[verifier::external_body]
#[verifier::reject_recursive_types(T)]
pub struct ExMutexGuard<'a, T: ?Sized + 'a>(MutexGuard<'a, T>);

/// Declares `std::pin::Pin` to the verifier. A pinned reference is opaque
/// here: its pinning guarantee is a statement about memory addresses, which
/// lie outside the verifier's model of values.
#[verifier::external_type_specification]
#[verifier::external_body]
#[verifier::reject_recursive_types(Ptr)]
pub struct ExPin<Ptr>(Pin<Ptr>);

/// A blocking lock that guarantees a stable address for the value it
/// protects.
///
/// The container owns the underlying mutual-exclusion primitive, which in
/// turn owns the value. Because `PinLock` has no custom teardown logic, a
/// pinned reference to the container pins everything it owns; `lock` relies
/// on this to hand out access to a value whose address can never change.
///
/// The view of a `PinLock` is the value it was constructed around; the
/// current contents can only be observed through a held guard.
#[verifier::reject_recursive_types(T)]
pub struct PinLock<T> {
    inner: Mutex<T>,
    initial: Ghost<T>,
}

impl<T> View for PinLock<T> {
    type V = T;

    closed spec fn view(&self) -> T {
        self.initial@
    }
}

/// Relies on `std::sync::Mutex::new`: stores `value` as the initial contents
/// of a fresh, unlocked mutex.
#[verifier::external_body]
fn mutex_new<T>(value: T) -> (m: Mutex<T>)
{
    Mutex::new(value)
}

impl<T> PinLock<T> {
    /// Creates a new lock containing `value`.
    ///
    /// Infallible and non-blocking; it does not itself establish pinning.
    /// Pinning is established by whatever the caller does with the returned
    /// container, such as placing it in a fixed location before ever taking
    /// a pinned reference to it.
    pub fn new(value: T) -> (r: PinLock<T>)
        ensures
            r@ == value,
    {
        let ghost v = value;
        PinLock { inner: mutex_new(value), initial: Ghost(v) }
    }
}

/// A guard wrapping an acquired, exclusive borrow of the value protected by
/// a [`PinLock`].
///
/// The guard is created only by [`PinLock::lock`] and releases the
/// underlying primitive when it goes out of scope; no explicit unlock
/// operation exists. The view of a guard is the value it currently
/// protects: reads return it, and it is updated through the guard's mutable
/// access.
#[verifier::reject_recursive_types(T)]
pub struct PinLockGuard<'a, T> {
    inner: MutexGuard<'a, T>,
    current: Ghost<T>,
}

impl<'a, T> View for PinLockGuard<'a, T> {
    type V = T;

    closed spec fn view(&self) -> T {
        self.current@
    }
}

/// Relies on `std::sync::Mutex::lock`: blocks until the calling thread holds
/// the mutex exclusively, then hands out the guard. If the mutex is poisoned
/// because a previous holder panicked, the call fails fatally (`unwrap` on
/// the poison error) rather than returning a recoverable error.
///
/// The value found under the lock depends on what other threads did with it,
/// so nothing can be said here about the guard's view: it is some value,
/// fixed for this acquisition.
#[verifier::external_body]
fn mutex_lock<'a, T>(m: &'a Mutex<T>) -> (guard: PinLockGuard<'a, T>)
{
    PinLockGuard { inner: m.lock().unwrap(), current: Ghost(arbitrary()) }
}

/// Relies on `std::pin::Pin::get_ref`: returns the reference the pin wraps.
/// This does not unpin anything: the container stays pinned, only a plain
/// reborrow of it comes out.
#[verifier::external_body]
fn pinned_container_ref<'a, T>(p: Pin<&'a PinLock<T>>) -> (r: &'a PinLock<T>)
{
    Pin::get_ref(p)
}

impl<T> PinLock<T> {
    /// Acquires the lock, blocking the current thread until it is able to
    /// do so.
    ///
    /// Requires a pinned reference to the container, not merely a reference
    /// to it: pinning of the container structurally implies pinning of the
    /// value it owns, which is what lets the guard promise a stable address.
    /// Upon returning, the calling thread is the only one holding the lock.
    ///
    /// Fails fatally if a previous holder panicked while holding the lock;
    /// no recoverable error is returned.
    pub fn lock<'a>(self: Pin<&'a PinLock<T>>) -> (guard: PinLockGuard<'a, T>)
    {
        let container = pinned_container_ref(self);
        mutex_lock(&container.inner)
    }
}

/// Relies on `std::sync::MutexGuard`'s `Deref`: returns a shared reference
/// to the value the guard protects.
#[verifier::external_body]
fn guard_value_ref<'a, 'b, T>(g: &'b PinLockGuard<'a, T>) -> (r: &'b T)
    ensures
        *r == g@,
{
    &*g.inner
}

impl<'a, T> PinLockGuard<'a, T> {
    /// Returns a read-only view of the protected value.
    ///
    /// This is the default access path: handing out mutable access without
    /// pinning would make it trivial to move the value (for example by
    /// swapping it out), breaking the address-stability guarantee.
    pub fn get(&self) -> (r: &T)
        ensures
            *r == self@,
    {
        guard_value_ref(self)
    }
}

impl<'a, T: Unpin> PinLockGuard<'a, T> {
    /// Get a pinned mutable reference to the value inside this wrapper.
    ///
    /// This is the only path to mutating the protected value; the returned
    /// reference carries the same non-relocation guarantee as the pinned
    /// container reference the guard was created from.
    ///
    /// Relies on `std::sync::MutexGuard`'s `DerefMut` to reach the protected
    /// value and on `std::pin::Pin::new` to pin the reference to it, which is
    /// sound because `T: Unpin`. The value behind the returned reference is
    /// in the caller's hands, so the guard's view afterwards is unknown: it
    /// is whatever the caller leaves behind the reference.
    #[verifier::external_body]
    pub fn as_mut<'b>(&'b mut self) -> (p: Pin<&'b mut T>)
    {
        Pin::new(&mut *self.inner)
    }
}

} // verus!

use std::pin::Pin;

use pin_lock::PinLock;

#[test]
fn construct_pin_acquire_read_integer() {
    let lock = PinLock::new(42u32);
    let pinned = Pin::new(&lock);
    let guard = pinned.lock();
    assert_eq!(*guard.get(), 42);
}

#[test]
fn construct_pin_acquire_read_string() {
    let lock = PinLock::new(String::from("hello"));
    let pinned = Pin::new(&lock);
    let guard = pinned.lock();
    assert_eq!(guard.get().as_str(), "hello");
}

#[test]
fn construct_pin_acquire_read_zero() {
    let lock = PinLock::new(0i64);
    let pinned = Pin::new(&lock);
    let guard = pinned.lock();
    assert_eq!(*guard.get(), 0);
}

#[test]
fn read_is_stable_while_guard_is_held() {
    let lock = PinLock::new(7u8);
    let pinned = Pin::new(&lock);
    let guard = pinned.lock();
    let first = *guard.get();
    let second = *guard.get();
    assert_eq!(first, 7);
    assert_eq!(second, 7);
}

#[test]
fn mutation_persists_across_release_and_reacquire() {
    let lock = PinLock::new(1u64);
    let pinned = Pin::new(&lock);
    {
        let mut guard = pinned.lock();
        *guard.as_mut() = 99;
        assert_eq!(*guard.get(), 99);
    }
    let guard = pinned.lock();
    assert_eq!(*guard.get(), 99);
}

#[test]
fn mutation_through_pin_set() {
    let lock = PinLock::new(5i32);
    let pinned = Pin::new(&lock);
    {
        let mut guard = pinned.lock();
        guard.as_mut().set(-3);
    }
    let guard = pinned.lock();
    assert_eq!(*guard.get(), -3);
}

#[test]
fn repeated_mutations_accumulate() {
    let lock = PinLock::new(0u64);
    let pinned = Pin::new(&lock);
    for _ in 0..1000 {
        let mut guard = pinned.lock();
        let v = *guard.get();
        *guard.as_mut() = v + 1;
    }
    let guard = pinned.lock();
    assert_eq!(*guard.get(), 1000);
}

#[test]
fn address_stable_across_acquire_release_cycles() {
    let lock = PinLock::new(11u64);
    let pinned = Pin::new(&lock);
    let mut addresses: Vec<usize> = Vec::new();
    for _ in 0..5 {
        let mut guard = pinned.lock();
        addresses.push(std::ptr::from_ref(guard.get()) as usize);
        let v = *guard.get();
        *guard.as_mut() = v + 1;
    }
    for a in &addresses {
        assert_eq!(*a, addresses[0]);
    }
    let guard = pinned.lock();
    assert_eq!(*guard.get(), 16);
}

#[test]
fn works_behind_a_heap_pin() {
    let boxed = Box::pin(PinLock::new(8u16));
    {
        let mut guard = boxed.as_ref().lock();
        *guard.as_mut() = 17;
    }
    let guard = boxed.as_ref().lock();
    assert_eq!(*guard.get(), 17);
}

use ownkit::shared::SharedStore;

use std::cell::RefCell;
use std::rc::Rc;

/// A release-counting stand-in: each drop of a `Probe` bumps the shared
/// counter, so a test can observe how often a shared value was released.
struct Probe {
    releases: Rc<RefCell<u32>>,
}

impl Drop for Probe {
    fn drop(&mut self) {
        *self.releases.borrow_mut() += 1;
    }
}

fn probe(releases: &Rc<RefCell<u32>>) -> Probe {
    Probe { releases: Rc::clone(releases) }
}

#[test]
fn construct_then_access() {
    let mut store = SharedStore::new();
    let r = store.construct(42);
    assert_eq!(*store.access(&r), 42);
    assert_eq!(store.dispose(r), Some(42));
}

#[test]
fn last_of_n_handles_releases_exactly_once() {
    // n handles: the first n - 1 disposals release nothing, the n-th
    // releases the value, exactly once in total.
    for n in 1..=4usize {
        let releases = Rc::new(RefCell::new(0u32));
        let mut store = SharedStore::new();
        let mut handles = vec![store.construct(probe(&releases))];
        for _ in 1..n {
            let r = store.clone_handle(&handles[0]);
            handles.push(r);
        }
        assert_eq!(handles.len(), n);
        for (k, r) in handles.into_iter().enumerate() {
            let released = store.dispose(r);
            if k + 1 < n {
                assert!(released.is_none());
                assert_eq!(*releases.borrow(), 0);
            } else {
                assert!(released.is_some());
                drop(released);
                assert_eq!(*releases.borrow(), 1);
            }
        }
        assert_eq!(*releases.borrow(), 1);
    }
}

#[test]
fn disposal_order_does_not_matter() {
    // Two slots, two handles each, disposed in every interleaving: each
    // value is released exactly once, always on its slot's last disposal.
    // Handle order within one slot is immaterial: co-owner handles of a
    // slot are interchangeable.
    for order in [
        [0, 0, 1, 1],
        [0, 1, 0, 1],
        [0, 1, 1, 0],
        [1, 0, 0, 1],
        [1, 0, 1, 0],
        [1, 1, 0, 0],
    ] {
        let rel_a = Rc::new(RefCell::new(0u32));
        let rel_b = Rc::new(RefCell::new(0u32));
        let mut store = SharedStore::new();
        let a1 = store.construct(probe(&rel_a));
        let a2 = store.clone_handle(&a1);
        let b1 = store.construct(probe(&rel_b));
        let b2 = store.clone_handle(&b1);
        let mut from_a = vec![a1, a2];
        let mut from_b = vec![b1, b2];
        for slot in order {
            let r = if slot == 0 { from_a.pop().unwrap() } else { from_b.pop().unwrap() };
            drop(store.dispose(r));
        }
        assert_eq!(*rel_a.borrow(), 1);
        assert_eq!(*rel_b.borrow(), 1);
    }
}

#[test]
fn clone_keeps_value_alive_after_first_disposal() {
    // r1 = construct("x"); r2 = clone(r1); dispose r1; r2 still reads "x";
    // dispose r2; the value is released exactly once in total.
    let mut store = SharedStore::new();
    let r1 = store.construct(String::from("x"));
    let r2 = store.clone_handle(&r1);
    assert_eq!(store.dispose(r1), None);
    assert_eq!(store.access(&r2), "x");
    assert_eq!(store.dispose(r2), Some(String::from("x")));
}

#[test]
fn cloning_does_not_copy_the_value() {
    // With three live handles the store still holds one value: releases
    // stay at zero until the last handle goes, and only one value comes out.
    let releases = Rc::new(RefCell::new(0u32));
    let mut store = SharedStore::new();
    let r1 = store.construct(probe(&releases));
    let r2 = store.clone_handle(&r1);
    let r3 = store.clone_handle(&r2);
    assert!(store.dispose(r3).is_none());
    assert!(store.dispose(r1).is_none());
    assert_eq!(*releases.borrow(), 0);
    let last = store.dispose(r2);
    assert!(last.is_some());
    drop(last);
    assert_eq!(*releases.borrow(), 1);
}

#[test]
fn slots_are_independent() {
    let mut store = SharedStore::new();
    let r1 = store.construct(1u32);
    let r2 = store.construct(2u32);
    let r3 = store.construct(3u32);
    assert_eq!(store.dispose(r2), Some(2));
    assert_eq!(*store.access(&r1), 1);
    assert_eq!(*store.access(&r3), 3);
    assert_eq!(store.dispose(r1), Some(1));
    assert_eq!(store.dispose(r3), Some(3));
}

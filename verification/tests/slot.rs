use async_sequential::internal::slot;
use std::sync::atomic::{AtomicUsize, Ordering};
use std::sync::Arc;

struct DropCounter(Arc<AtomicUsize>);

impl Drop for DropCounter {
    fn drop(&mut self) {
        self.0.fetch_add(1, Ordering::Relaxed);
    }
}

fn runtime() -> tokio::runtime::Runtime {
    tokio::runtime::Builder::new_multi_thread().build().unwrap()
}

#[test]
fn take_returns_none_when_empty() {
    let (_setter, taker) = slot::<usize>();

    assert_eq!(taker.take(), None);
}

#[test]
fn set_then_take_returns_value() {
    let (setter, taker) = slot();

    setter.set(42);

    assert_eq!(taker.take(), Some(42));
    assert_eq!(taker.take(), None);
}

#[test]
fn set_overwrites_previous_value() {
    let (setter, taker) = slot();

    setter.set(1);
    setter.set(2);

    assert_eq!(taker.take(), Some(2));
    assert_eq!(taker.take(), None);
}

#[test]
fn set_after_take_works() {
    let (setter, taker) = slot();

    setter.set(1);
    assert_eq!(taker.take(), Some(1));

    setter.set(2);
    assert_eq!(taker.take(), Some(2));
}

#[test]
fn take_removes_value() {
    let (setter, taker) = slot();

    setter.set(42);

    assert_eq!(taker.take(), Some(42));
    assert_eq!(taker.take(), None);
}

#[test]
fn value_is_dropped_when_overwritten() {
    let drops = Arc::new(AtomicUsize::new(0));
    let (setter, taker) = slot();

    setter.set(DropCounter(Arc::clone(&drops)));
    assert_eq!(drops.load(Ordering::Relaxed), 0);

    setter.set(DropCounter(Arc::clone(&drops)));
    assert_eq!(drops.load(Ordering::Relaxed), 1);

    drop(taker);
    drop(setter);

    assert_eq!(drops.load(Ordering::Relaxed), 2);
}

#[test]
fn value_is_dropped_when_state_is_dropped() {
    let drops = Arc::new(AtomicUsize::new(0));

    {
        let (setter, _taker) = slot();

        setter.set(DropCounter(Arc::clone(&drops)));

        assert_eq!(drops.load(Ordering::Relaxed), 0);
    }

    assert_eq!(drops.load(Ordering::Relaxed), 1);
}

#[test]
fn taken_value_is_not_dropped_twice() {
    let drops = Arc::new(AtomicUsize::new(0));

    {
        let (setter, taker) = slot();

        setter.set(DropCounter(Arc::clone(&drops)));

        let value = taker.take().unwrap();
        assert_eq!(drops.load(Ordering::Relaxed), 0);

        drop(value);
        assert_eq!(drops.load(Ordering::Relaxed), 1);

        drop(setter);
        drop(taker);
    }

    assert_eq!(drops.load(Ordering::Relaxed), 1);
}

#[test]
fn setter_and_taker_are_independently_droppable() {
    let drops = Arc::new(AtomicUsize::new(0));

    let (setter, taker) = slot();

    setter.set(DropCounter(Arc::clone(&drops)));

    drop(setter);

    assert_eq!(drops.load(Ordering::Relaxed), 0);
    assert_eq!(taker.take().is_some(), true);
    assert_eq!(drops.load(Ordering::Relaxed), 1);
}

#[test]
fn concurrent_set_and_take() {
    runtime().block_on(async {
        let (setter, taker) = slot();

        let setter = tokio::task::spawn_blocking(move || {
            for i in 0..100_000 {
                setter.set(i);
            }
        });

        let taker = tokio::task::spawn_blocking(move || {
            let mut count = 0;

            for _ in 0..100_000 {
                if taker.take().is_some() {
                    count += 1;
                }
            }

            count
        });

        setter.await.unwrap();
        let _ = taker.await.unwrap();
    });
}

#[test]
fn concurrent_set_and_take_preserves_memory_safety() {
    let drops = Arc::new(AtomicUsize::new(0));

    runtime().block_on(async {
        let (setter, taker) = slot();

        let setter_drops = Arc::clone(&drops);
        let setter = tokio::task::spawn_blocking(move || {
            for _ in 0..100_000 {
                setter.set(DropCounter(Arc::clone(&setter_drops)));
            }
        });

        let taker = tokio::task::spawn_blocking(move || {
            for _ in 0..100_000 {
                let _ = taker.take();
            }
        });

        setter.await.unwrap();
        taker.await.unwrap();
    });

    // Whatever is left in the slot is dropped with it, so every value
    // created is dropped exactly once.
    assert_eq!(drops.load(Ordering::Relaxed), 100_000);
}

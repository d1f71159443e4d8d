use conduit_proxy::drain::{channel, Drained, Never, Readiness, Step, Watching};
use futures::future::lazy;
use futures::{Async, Future, Stream};

/// What the drain signal answers to a poll, in the library's terms.
fn poll_signal<A, F>(watching: &mut Watching<A, F>) -> Result<Readiness<()>, ()> {
    match watching.signal_mut().shared.poll() {
        Ok(Async::Ready(_)) => Ok(Readiness::Ready(())),
        Ok(Async::NotReady) => Ok(Readiness::NotReady),
        Err(_) => Err(()),
    }
}

/// What the watchers' channel answers to a poll, in the library's terms.
fn poll_watchers(drained: &mut Drained) -> Result<Readiness<Option<Never>>, ()> {
    match drained.receiver_mut().poll() {
        Ok(Async::Ready(item)) => Ok(Readiness::Ready(item)),
        Ok(Async::NotReady) => Ok(Readiness::NotReady),
        Err(()) => Err(()),
    }
}

/// One poll of a watching counter, run as the steps say: the counter is
/// bumped by the callback, and the poll answers with the counter.
fn poll_counter<F: FnOnce(&mut u32)>(watching: &mut Watching<u32, F>) -> u32 {
    let mut step = watching.begin_poll();
    loop {
        match step {
            Step::PollSignal => {
                let signal = poll_signal(watching);
                step = watching.signal_polled(signal);
            }
            Step::RunOnDrain(on_drain) => {
                on_drain(watching.future_mut());
                step = watching.begin_poll();
            }
            Step::PollFuture => return *watching.future_mut(),
        }
    }
}

#[test]
fn watch_starts_by_polling_the_signal() {
    let (_signal, watch) = channel();
    let watching = watch.watch(7u32, |n: &mut u32| *n += 1);
    assert!(matches!(watching.begin_poll(), Step::PollSignal));
}

#[test]
fn pending_signal_keeps_watching() {
    let (_signal, watch) = channel();
    let mut watching = watch.watch(7u32, |n: &mut u32| *n += 1);
    let step = watching.signal_polled(Ok(Readiness::NotReady));
    assert!(matches!(step, Step::PollFuture));
    assert!(matches!(watching.begin_poll(), Step::PollSignal));
    assert_eq!(*watching.future_mut(), 7);
}

#[test]
fn fired_signal_hands_out_the_callback_once() {
    let (_signal, watch) = channel();
    let mut watching = watch.watch(7u32, |n: &mut u32| *n += 10);
    match watching.signal_polled(Ok(Readiness::Ready(()))) {
        Step::RunOnDrain(on_drain) => on_drain(watching.future_mut()),
        _ => panic!("a fired signal must run the callback"),
    }
    assert_eq!(*watching.future_mut(), 17);
    assert!(matches!(watching.begin_poll(), Step::PollFuture));
    assert!(matches!(watching.signal_polled(Ok(Readiness::Ready(()))), Step::PollFuture));
    assert!(matches!(watching.signal_polled(Err(())), Step::PollFuture));
    assert_eq!(*watching.future_mut(), 17);
}

#[test]
fn failed_signal_counts_as_a_drain() {
    let (_signal, watch) = channel();
    let mut watching = watch.watch(1u32, |n: &mut u32| *n = 0);
    match watching.signal_polled(Err(())) {
        Step::RunOnDrain(on_drain) => on_drain(watching.future_mut()),
        _ => panic!("a failed signal must run the callback"),
    }
    assert_eq!(*watching.future_mut(), 0);
    assert!(matches!(watching.begin_poll(), Step::PollFuture));
}

#[test]
fn drained_resolves_only_when_the_channel_ends() {
    assert!(matches!(Drained::resolve(Ok(Readiness::Ready(None))), Ok(Readiness::Ready(()))));
    assert!(matches!(Drained::resolve(Ok(Readiness::NotReady)), Ok(Readiness::NotReady)));
    assert!(matches!(Drained::resolve(Err(())), Err(())));
}

#[test]
fn undrained_watch_polls_only_the_future() {
    lazy(|| -> Result<(), ()> {
        let (_signal, watch) = channel();
        let mut watching = watch.watch(3u32, |n: &mut u32| *n += 100);
        assert_eq!(poll_counter(&mut watching), 3);
        assert_eq!(poll_counter(&mut watching), 3);
        assert!(matches!(watching.begin_poll(), Step::PollSignal));
        Ok(())
    })
    .wait()
    .unwrap();
}

#[test]
fn drain_reaches_every_watcher_once() {
    lazy(|| -> Result<(), ()> {
        let (signal, watch) = channel();
        let mut first = watch.clone().watch(1u32, |n: &mut u32| *n += 100);
        let mut second = watch.watch(2u32, |n: &mut u32| *n += 200);
        assert_eq!(poll_counter(&mut first), 1);
        let mut drained = signal.drain();
        assert_eq!(poll_counter(&mut first), 101);
        assert_eq!(poll_counter(&mut first), 101);
        assert_eq!(poll_counter(&mut second), 202);
        assert!(matches!(watching_state(&first), Step::PollFuture));
        let watchers = poll_watchers(&mut drained);
        assert!(matches!(Drained::resolve(watchers), Ok(Readiness::NotReady)));
        drop(first);
        let watchers = poll_watchers(&mut drained);
        assert!(matches!(Drained::resolve(watchers), Ok(Readiness::NotReady)));
        drop(second);
        let watchers = poll_watchers(&mut drained);
        assert!(matches!(Drained::resolve(watchers), Ok(Readiness::Ready(()))));
        Ok(())
    })
    .wait()
    .unwrap();
}

fn watching_state<A, F>(watching: &Watching<A, F>) -> Step<F> {
    watching.begin_poll()
}

#[test]
fn dropped_signal_triggers_the_drain() {
    lazy(|| -> Result<(), ()> {
        let (signal, watch) = channel();
        let mut watching = watch.watch(5u32, |n: &mut u32| *n = 0);
        drop(signal);
        assert_eq!(poll_counter(&mut watching), 0);
        Ok(())
    })
    .wait()
    .unwrap();
}

#[test]
fn drained_resolves_at_once_without_watchers() {
    lazy(|| -> Result<(), ()> {
        let (signal, watch) = channel();
        drop(watch);
        let mut drained = signal.drain();
        let watchers = poll_watchers(&mut drained);
        assert!(matches!(Drained::resolve(watchers), Ok(Readiness::Ready(()))));
        Ok(())
    })
    .wait()
    .unwrap();
}

//! A drain channel: `channel` makes a `Signal` and a `Watch`. The `Signal`
//! starts a drain; every `Watch`, and every clone of it, is told of the drain;
//! and the `Drained` that `Signal::drain` returns resolves once all of them
//! have been dropped.
//!
//! Polling a future needs a task, so the polls themselves are made by the
//! caller. What a poll of a `Watching` does is decided here, step by step:
//! `begin_poll` says what to do first, `signal_polled` takes what the drain
//! signal answered and says what to do next, and `Drained::resolve` turns
//! what the watchers' channel answered into the answer of the `Drained`.
//!
//! None of these steps, nor `Watch::watch`, can unwind. Making a sender of
//! the watchers' channel may, so none of them makes one: every sender alive
//! after them is one that their results hold, and the `Drained` resolves once
//! those are dropped.

use vstd::prelude::*;
use futures::sync::mpsc;
use futures::sync::oneshot;
use crate::sync::{
    mpsc_channel, mpsc_halves, mpsc_sender_clone, oneshot_channel, oneshot_halves, oneshot_send, share, shared_from,
    SharedSignal,
};

verus! {

/// A type with no values: the watchers never send anything on their channel,
/// they only hold it open.
pub type Never = std::convert::Infallible;

/// Readiness of a polled future: `Ready` with its value, or `NotReady` yet.
#[derive(Debug)]
pub enum Readiness<T> {
    Ready(T),
    NotReady,
}

/// Send a drain command to all watchers.
///
/// When a drain is started, `drain` returns a `Drained` future which resolves
/// when all `Watch`ers have been dropped.
#[derive(Debug)]
pub struct Signal {
    drained_rx: mpsc::Receiver<Never>,
    tx: oneshot::Sender<()>,
}

/// Watch for a drain command.
///
/// This wraps another future and callback to be called when drain is
/// triggered.
#[derive(Debug)]
pub struct Watch {
    drained_tx: mpsc::Sender<Never>,
    rx: SharedSignal,
}

/// Where a `Watching` stands: still watching, with the callback that a drain
/// will run, or draining, the callback spent.
#[derive(Debug)]
pub enum State<F> {
    Watch(F),
    Draining,
}

/// The wrapped watching future.
#[derive(Debug)]
pub struct Watching<A, F> {
    future: A,
    state: State<F>,
    watch: Watch,
}

/// A future that resolves when all `Watch`ers have been dropped (drained).
#[derive(Debug)]
pub struct Drained {
    drained_rx: mpsc::Receiver<Never>,
}

/// What a poll of a `Watching` does next.
#[derive(Debug)]
pub enum Step<F> {
    /// Poll the drain signal (`Watching::signal_mut`) and hand its answer to
    /// `Watching::signal_polled`.
    PollSignal,
    /// A drain has been triggered: call this callback on the wrapped future
    /// (`Watching::future_mut`), then ask `Watching::begin_poll` again.
    RunOnDrain(F),
    /// Poll the wrapped future and answer with what it answers.
    PollFuture,
}

/// Whether a polled drain signal tells of a drain: it has fired, or it has
/// failed because the `Signal` was dropped without a drain. Both count.
pub open spec fn signal_triggers(signal: Result<Readiness<()>, ()>) -> bool {
    match signal {
        Ok(Readiness::NotReady) => false,
        _ => true,
    }
}

/// The first step of a poll of a `Watching` in `state`.
pub open spec fn begin_step<F>(state: State<F>) -> Step<F> {
    match state {
        State::Watch(_) => Step::PollSignal,
        State::Draining => Step::PollFuture,
    }
}

/// The state of a `Watching` once its drain signal has answered `signal`,
/// and the step that follows.
pub open spec fn after_signal<F>(state: State<F>, signal: Result<Readiness<()>, ()>) -> (State<F>, Step<F>) {
    match state {
        State::Watch(on_drain) => if signal_triggers(signal) {
            (State::Draining, Step::RunOnDrain(on_drain))
        } else {
            (State::Watch(on_drain), Step::PollFuture)
        },
        State::Draining => (State::Draining, Step::PollFuture),
    }
}

/// What the `Drained` future answers when the watchers' channel answers
/// `watchers`: it is done once the channel has ended, that is once every
/// sender, held by the watchers, is gone.
pub open spec fn drained_answer(watchers: Result<Readiness<Option<Never>>, ()>) -> Result<Readiness<()>, ()> {
    match watchers {
        Ok(Readiness::Ready(_)) => Ok(Readiness::Ready(())),
        Ok(Readiness::NotReady) => Ok(Readiness::NotReady),
        Err(()) => Err(()),
    }
}

/// Creates a drain channel.
///
/// The `Signal` is used to start a drain, and the `Watch` will be notified
/// when a drain is signaled.
pub fn channel() -> (pair: (Signal, Watch))
    ensures
        pair.1.listens_to(&pair.0),
{
    let (tx, rx) = oneshot_channel();
    let ghost receiver = rx;
    let (drained_tx, drained_rx) = mpsc_channel(0);
    let signal = share(rx);
    let drain_signal = Signal { drained_rx, tx };
    let watch = Watch { drained_tx, rx: signal };
    assert(mpsc_halves(watch.drained_tx, drain_signal.drained_rx));
    assert(oneshot_halves(drain_signal.tx, receiver) && shared_from(watch.rx, receiver));
    (drain_signal, watch)
}

impl Signal {
    /// The receiving half of the channel that the watchers hold open.
    pub closed spec fn receiver(&self) -> mpsc::Receiver<Never> {
        self.drained_rx
    }

    /// Start the draining process.
    ///
    /// A signal is sent to all futures watching for the signal. A new future
    /// is returned from this method that resolves when all watchers have
    /// completed.
    pub fn drain(self) -> (drained: Drained)
        ensures
            drained.receiver() == self.receiver(),
    {
        let _ = oneshot_send(self.tx, ());
        Drained { drained_rx: self.drained_rx }
    }
}

impl Watch {
    /// The sender that keeps the watchers' channel open while this `Watch`,
    /// or a `Watching` that holds it, is alive.
    pub closed spec fn sender(&self) -> mpsc::Sender<Never> {
        self.drained_tx
    }

    /// The drain signal that this `Watch` listens to.
    pub closed spec fn signal(&self) -> SharedSignal {
        self.rx
    }

    /// Whether this `Watch` belongs to `signal`: its drain signal is the
    /// shared receiver of the one-shot channel whose sender `signal` holds,
    /// so a drain, or the drop of `signal`, reaches it; and its sender keeps
    /// open the channel whose receiver `signal` holds, so the `Drained` of
    /// `signal` waits for it.
    pub closed spec fn listens_to(&self, signal: &Signal) -> bool {
        &&& mpsc_halves(self.drained_tx, signal.drained_rx)
        &&& exists|rx: oneshot::Receiver<()>|
            oneshot_halves(signal.tx, rx) && #[trigger] shared_from(self.rx, rx)
    }

    /// Wrap a future and a callback that is triggered when drain is received.
    ///
    /// The callback receives a mutable reference to the original future, and
    /// should be used to trigger any shutdown process for it.
    pub fn watch<A, F>(self, future: A, on_drain: F) -> (watching: Watching<A, F>)
        where F: FnOnce(&mut A),
        ensures
            watching.future() == future,
            watching.state() == State::Watch(on_drain),
            watching.watch() == self,
        no_unwind
    {
        Watching { future, state: State::Watch(on_drain), watch: self }
    }
}

impl Clone for Watch {
    /// Another watcher of the same drain: it listens to every `Signal` that
    /// this one listens to, and keeps that signal's `Drained` waiting.
    fn clone(&self) -> (c: Self)
        ensures
            forall|signal: Signal| #[trigger] self.listens_to(&signal) ==> c.listens_to(&signal),
    {
        let c = Watch { drained_tx: mpsc_sender_clone(&self.drained_tx), rx: self.rx.clone() };
        assert forall|signal: Signal| #[trigger] self.listens_to(&signal) implies c.listens_to(&signal) by {
            let rx = choose|rx: oneshot::Receiver<()>|
                oneshot_halves(signal.tx, rx) && #[trigger] shared_from(self.rx, rx);
            assert(shared_from(c.rx, rx));
        }
        c
    }
}

impl<A, F> Watching<A, F> {
    /// The wrapped future.
    pub closed spec fn future(&self) -> A {
        self.future
    }

    /// Whether the drain is still being watched for, with its callback.
    pub closed spec fn state(&self) -> State<F> {
        self.state
    }

    /// The `Watch` that this future holds, and with it the drain signal.
    pub closed spec fn watch(&self) -> Watch {
        self.watch
    }

    /// The wrapped future, to be polled or handed to the callback.
    pub fn future_mut(&mut self) -> (future: &mut A)
        ensures
            *future == old(self).future(),
            final(self).future() == *final(future),
            final(self).state() == old(self).state(),
            final(self).watch() == old(self).watch(),
        no_unwind
    {
        &mut self.future
    }

    /// The drain signal, to be polled when a poll's step is `PollSignal`.
    pub fn signal_mut(&mut self) -> (signal: &mut SharedSignal)
        ensures
            *signal == old(self).watch().signal(),
            final(self).watch().signal() == *final(signal),
            final(self).watch().sender() == old(self).watch().sender(),
            final(self).future() == old(self).future(),
            final(self).state() == old(self).state(),
        no_unwind
    {
        &mut self.watch.rx
    }

    /// The first step of a poll.
    pub fn begin_poll(&self) -> (step: Step<F>)
        ensures
            step == begin_step(self.state()),
        no_unwind
    {
        match &self.state {
            State::Watch(_) => Step::PollSignal,
            State::Draining => Step::PollFuture,
        }
    }

    /// Takes what the drain signal answered to a poll, and gives the step
    /// that follows. A drain, or a `Signal` dropped without one, hands the
    /// callback out to be run and leaves this future draining for good.
    pub fn signal_polled(&mut self, signal: Result<Readiness<()>, ()>) -> (step: Step<F>)
        ensures
            (final(self).state(), step) == after_signal(old(self).state(), signal),
            final(self).future() == old(self).future(),
            final(self).watch() == old(self).watch(),
        no_unwind
    {
        let triggered = match signal {
            Ok(Readiness::NotReady) => false,
            _ => true,
        };
        if triggered {
            let mut previous = State::Draining;
            std::mem::swap(&mut previous, &mut self.state);
            match previous {
                State::Watch(on_drain) => Step::RunOnDrain(on_drain),
                State::Draining => Step::PollFuture,
            }
        } else {
            Step::PollFuture
        }
    }
}

impl Drained {
    /// The receiving half of the channel that the watchers hold open.
    pub closed spec fn receiver(&self) -> mpsc::Receiver<Never> {
        self.drained_rx
    }

    /// The watchers' channel, to be polled when this future is.
    pub fn receiver_mut(&mut self) -> (receiver: &mut mpsc::Receiver<Never>)
        ensures
            *receiver == old(self).receiver(),
            final(self).receiver() == *final(receiver),
        no_unwind
    {
        &mut self.drained_rx
    }

    /// What this future answers to a poll, given what the watchers' channel
    /// answered: ready once the channel has ended, not ready while a watcher
    /// is left, and the channel's error passed on. No item can come out of
    /// the channel, for `Never` has no values; `requires` says so.
    pub fn resolve(watchers: Result<Readiness<Option<Never>>, ()>) -> (answer: Result<Readiness<()>, ()>)
        requires
            !(watchers matches Ok(Readiness::Ready(Some(_)))),
        ensures
            answer == drained_answer(watchers),
        no_unwind
    {
        match watchers {
            Ok(Readiness::Ready(None)) => Ok(Readiness::Ready(())),
            Ok(Readiness::Ready(Some(_))) => {
                proof {
                    assert(false);
                }
                Err(())
            },
            Ok(Readiness::NotReady) => Ok(Readiness::NotReady),
            Err(()) => Err(()),
        }
    }
}

/// One poll of a `Watching` in `state` whose drain signal, if polled,
/// answers `signal`, run through `begin_step` and `after_signal` until it
/// polls the wrapped future: the state afterwards, and the callback that
/// was run on the way, if any.
pub open spec fn poll_once<F>(state: State<F>, signal: Result<Readiness<()>, ()>) -> (State<F>, Option<F>) {
    match begin_step(state) {
        Step::PollSignal => match after_signal(state, signal) {
            (next, Step::RunOnDrain(on_drain)) => (next, Some(on_drain)),
            (next, _) => (next, None),
        },
        _ => (state, None),
    }
}

/// How many times the callback is run over successive polls of a
/// `Watching` that starts in `state`, the drain signal answering the n-th
/// of them with `signals[n]`.
pub open spec fn callbacks_run<F>(state: State<F>, signals: Seq<Result<Readiness<()>, ()>>) -> nat
    decreases signals.len(),
{
    if signals.len() == 0 {
        0
    } else {
        let (next, ran) = poll_once(state, signals[0]);
        (if ran is Some { 1nat } else { 0nat }) + callbacks_run(next, signals.drop_first())
    }
}

/// The state of a `Watching` that starts in `state` after successive polls
/// whose drain signal answers `signals`.
pub open spec fn state_after<F>(state: State<F>, signals: Seq<Result<Readiness<()>, ()>>) -> State<F>
    decreases signals.len(),
{
    if signals.len() == 0 {
        state
    } else {
        state_after(poll_once(state, signals[0]).0, signals.drop_first())
    }
}

/// Every poll of a `Watching` ends by polling the wrapped future. On the way
/// it polls the drain signal only while watching, and runs the callback at
/// most once: exactly when the signal tells of a drain (or of a dropped
/// `Signal`), and then it is the callback given to `watch`, after which the
/// future is draining and the next step is to poll the wrapped future.
pub proof fn lemma_poll_ends_in_future<F>(state: State<F>, signal: Result<Readiness<()>, ()>)
    ensures
        begin_step(state) is PollSignal <==> state is Watch,
        begin_step(state) is PollFuture <==> state is Draining,
        state is Watch ==> match after_signal(state, signal) {
            (next, Step::RunOnDrain(on_drain)) => {
                &&& signal_triggers(signal)
                &&& state == State::Watch(on_drain)
                &&& next is Draining
                &&& begin_step(next) is PollFuture
            },
            (next, Step::PollFuture) => !signal_triggers(signal) && next == state,
            (_, Step::PollSignal) => false,
        },
{
}

/// Draining is for good: a draining `Watching` never polls the drain signal
/// again, never runs a callback, and stays draining whatever it is told.
pub proof fn lemma_draining_is_final<F>(signals: Seq<Result<Readiness<()>, ()>>)
    ensures
        begin_step(State::<F>::Draining) is PollFuture,
        callbacks_run(State::<F>::Draining, signals) == 0,
        state_after(State::<F>::Draining, signals) is Draining,
    decreases signals.len(),
{
    if signals.len() > 0 {
        lemma_draining_is_final::<F>(signals.drop_first());
    }
}

/// Over any run of polls the callback is run at most once, and it is run
/// exactly when the `Watching` was still watching and some poll found the
/// drain signal fired or failed; from then on it is draining.
pub proof fn lemma_callback_runs_at_most_once<F>(state: State<F>, signals: Seq<Result<Readiness<()>, ()>>)
    ensures
        callbacks_run(state, signals) <= 1,
        callbacks_run(state, signals) == 1 <==> (state is Watch && exists|i: int|
            0 <= i < signals.len() && signal_triggers(#[trigger] signals[i])),
        state_after(state, signals) is Draining <==> (state is Draining || exists|i: int|
            0 <= i < signals.len() && signal_triggers(#[trigger] signals[i])),
    decreases signals.len(),
{
    if signals.len() > 0 {
        let rest = signals.drop_first();
        let (next, ran) = poll_once(state, signals[0]);
        lemma_callback_runs_at_most_once(next, rest);
        lemma_draining_is_final::<F>(rest);
        assert forall|i: int| 0 < i < signals.len() implies signals[i] == rest[i - 1] by {}
        if exists|i: int| 0 <= i < signals.len() && signal_triggers(#[trigger] signals[i]) {
            let i = choose|i: int| 0 <= i < signals.len() && signal_triggers(#[trigger] signals[i]);
            if i > 0 {
                assert(signal_triggers(rest[i - 1]));
            }
        }
        if exists|i: int| 0 <= i < rest.len() && signal_triggers(#[trigger] rest[i]) {
            let i = choose|i: int| 0 <= i < rest.len() && signal_triggers(#[trigger] rest[i]);
            assert(signals[i + 1] == rest[i]);
        }
    }
}

/// The `Drained` that a drain of `signal` returns waits on the channel that
/// every `Watch` of `signal` keeps open: it resolves only once they are gone.
pub proof fn lemma_drained_waits_for_watch(signal: Signal, watch: Watch, drained: Drained)
    requires
        watch.listens_to(&signal),
        drained.receiver() == signal.receiver(),
    ensures
        mpsc_halves(watch.sender(), drained.receiver()),
{
}

} // verus!

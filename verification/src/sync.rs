//! The channels of `futures` 0.1 that the drain is built on: their types, the
//! calls that make, clone and use them, and which halves belong together.

use vstd::prelude::*;
use futures::future::Shared;
use futures::Future;
use futures::sync::mpsc;
use futures::sync::oneshot;
use crate::drain::Never;

verus! {

#[verifier::external_type_specification]
#[verifier::external_body]
#[verifier::reject_recursive_types(T)]
pub struct ExOneshotSender<T>(oneshot::Sender<T>);

#[verifier::external_type_specification]
#[verifier::external_body]
#[verifier::reject_recursive_types(T)]
pub struct ExOneshotReceiver<T>(oneshot::Receiver<T>);

#[verifier::external_type_specification]
#[verifier::external_body]
#[verifier::reject_recursive_types(T)]
pub struct ExMpscSender<T>(mpsc::Sender<T>);

#[verifier::external_type_specification]
#[verifier::external_body]
#[verifier::reject_recursive_types(T)]
pub struct ExMpscReceiver<T>(mpsc::Receiver<T>);

/// The drain signal as every watcher holds it: the receiving half of the
/// one-shot channel, made cloneable by `futures::Future::shared`. Its
/// contents are opaque; `shared_from` says which receiver it stands for.
/// Polling it is left to the caller, inside a task, as `futures` demands.
#[verifier::external_body]
#[derive(Debug)]
pub struct SharedSignal {
    pub shared: Shared<oneshot::Receiver<()>>,
}

impl Clone for SharedSignal {
    /// Calls `Clone::clone` of `futures::future::Shared`, which makes another
    /// handle on the same shared future (it shares the same `Arc` of inner
    /// state): the clone stands for every receiver that the original does.
    #[verifier::external_body]
    fn clone(&self) -> (c: Self)
        ensures
            forall|rx: oneshot::Receiver<()>| #[trigger] shared_from(*self, rx) ==> shared_from(c, rx),
    {
        SharedSignal { shared: self.shared.clone() }
    }
}

/// Calls `Clone::clone` of `futures::sync::mpsc::Sender`, which makes
/// another sender on the same channel (it shares the same `inner`), keeping
/// the channel open until it too is dropped: the clone is a sender of every
/// receiver that the original is. The crate panics once more senders are
/// outstanding than the channel can count (`usize::MAX >> 1` less the
/// buffer); that count is not visible in the arguments, so no `requires`
/// rules it out, and the call may unwind. A function that is proved not to
/// unwind therefore never makes a sender of a watchers' channel.
#[verifier::external_body]
pub(crate) fn mpsc_sender_clone(tx: &mpsc::Sender<Never>) -> (c: mpsc::Sender<Never>)
    ensures
        forall|rx: mpsc::Receiver<Never>| #[trigger] mpsc_halves(*tx, rx) ==> mpsc_halves(c, rx),
{
    tx.clone()
}

/// Whether `tx` and `rx` are the two halves of one one-shot channel, as one
/// call of `futures::sync::oneshot::channel` makes them: both hold the same
/// shared inner state, so what is sent on `tx`, or its drop, reaches `rx`.
pub uninterp spec fn oneshot_halves(tx: oneshot::Sender<()>, rx: oneshot::Receiver<()>) -> bool;

/// Whether `tx` and `rx` are a sender and the receiver of one bounded
/// channel, as one call of `futures::sync::mpsc::channel` makes them: the
/// receiver's stream ends once every sender of its channel is dropped.
pub uninterp spec fn mpsc_halves(tx: mpsc::Sender<Never>, rx: mpsc::Receiver<Never>) -> bool;

/// Whether `signal` is the cloneable form of the one-shot receiver `rx`, as
/// `futures::Future::shared` makes it: it resolves as `rx` does.
pub uninterp spec fn shared_from(signal: SharedSignal, rx: oneshot::Receiver<()>) -> bool;

/// Calls `futures::sync::oneshot::channel`, which makes a fresh one-shot
/// channel and hands back its two halves, which belong to that one channel
/// (the crate's source builds both around one `Arc` of the inner state).
#[verifier::external_body]
pub(crate) fn oneshot_channel() -> (pair: (oneshot::Sender<()>, oneshot::Receiver<()>))
    ensures
        oneshot_halves(pair.0, pair.1),
{
    oneshot::channel()
}

/// Calls `futures::sync::mpsc::channel`, which makes a fresh bounded channel
/// and hands back a sender and the receiver of it (the crate's source builds
/// both around one `Arc` of the inner state). The crate asserts that `buffer`
/// is below its maximum buffer size, `usize::MAX >> 2`; `requires` keeps to
/// that.
#[verifier::external_body]
pub(crate) fn mpsc_channel(buffer: usize) -> (pair: (mpsc::Sender<Never>, mpsc::Receiver<Never>))
    requires
        buffer < usize::MAX / 4,
    ensures
        mpsc_halves(pair.0, pair.1),
{
    mpsc::channel(buffer)
}

/// Calls `futures::Future::shared` on the one-shot receiver of the drain
/// signal, which wraps it in a cloneable future whose clones all resolve to
/// the same outcome, the outcome of `rx`.
#[verifier::external_body]
pub(crate) fn share(rx: oneshot::Receiver<()>) -> (signal: SharedSignal)
    ensures
        shared_from(signal, rx),
{
    SharedSignal { shared: Future::shared(rx) }
}

/// Calls `futures::sync::oneshot::Sender::send`, which completes the channel
/// with `value`. Whether it answers `Ok` or hands the value back in `Err`
/// depends on whether the receiving half is still alive, which no argument
/// shows; so only what holds either way is stated: an `Err` carries back the
/// value that was sent.
#[verifier::external_body]
pub(crate) fn oneshot_send<T>(tx: oneshot::Sender<T>, value: T) -> (r: Result<(), T>)
    ensures
        r matches Err(v) ==> v == value,
{
    tx.send(value)
}

} // verus!

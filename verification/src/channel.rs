use vstd::prelude::*;

verus! {

#[verifier::external_type_specification]
#[verifier::external_body]
#[verifier::reject_recursive_types(T)]
pub struct ExSender<T>(tokio::sync::oneshot::Sender<T>);

#[verifier::external_type_specification]
#[verifier::external_body]
#[verifier::reject_recursive_types(T)]
pub struct ExReceiver<T>(tokio::sync::oneshot::Receiver<T>);

#[verifier::external_type_specification]
#[verifier::external_body]
pub struct ExRecvError(tokio::sync::oneshot::error::RecvError);

/// Relies on tokio::sync::oneshot::channel: allocates a fresh one-shot
/// channel and returns its paired send and receive halves. The receive
/// half is wakeup-driven: it is signalled the moment the send half is
/// used or dropped, so a waiter never polls and never hangs on a dropped
/// producer.
#[verifier::external_body]
pub(crate) fn oneshot_pair<T>() -> (tokio::sync::oneshot::Sender<T>, tokio::sync::oneshot::Receiver<
    T,
>) {
    tokio::sync::oneshot::channel()
}

/// Relies on tokio::sync::oneshot::Sender::send: consumes the send half
/// and makes the value available to the paired receiver; if the receiver
/// is already gone the value is discarded. Either way the channel is
/// spent by this one call.
#[verifier::external_body]
pub(crate) fn oneshot_send<T>(tx: tokio::sync::oneshot::Sender<T>, value: T) {
    let _ = tx.send(value);
}

} // verus!

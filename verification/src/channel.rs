//! The one-shot channel of the `futures` crate, as far as the library
//! touches it.

use vstd::prelude::*;

verus! {

/// `futures::channel::oneshot::Canceled`: the error with which a one-shot
/// receiver resolves once its sender is gone. It is a unit struct, and
/// nothing is claimed of it.
#[verifier::external_type_specification]
#[verifier::external_body]
pub struct ExCanceled(futures::channel::oneshot::Canceled);

/// `futures::channel::oneshot::Sender`: the sending half of a one-shot
/// channel. The library moves it and hands it to [`send_signal`]; it never
/// looks inside.
#[verifier::external_type_specification]
#[verifier::external_body]
#[verifier::reject_recursive_types(T)]
pub struct ExSender<T>(futures::channel::oneshot::Sender<T>);

/// Calls `futures::channel::oneshot::Sender::send` with the unit value and
/// drops what it returns.
///
/// Nothing is claimed of the call: whether the value reaches the receiver
/// depends on whether the receiver still exists. The call consumes the
/// sender, so it is the only one made on it, and the slot that it fills is
/// empty when it is made.
#[verifier::external_body]
pub(crate) fn send_signal(tx: futures::channel::oneshot::Sender<()>) {
    let _ = tx.send(());
}

} // verus!

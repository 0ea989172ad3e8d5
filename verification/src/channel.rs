//! The one-way queue between the worker and the controller: std's
//! multi-producer channel, used with one producer. Nothing here is proved;
//! each item says what is taken on trust.

use crate::record::NewsCardData;
use std::sync::mpsc::{Receiver, Sender};
use vstd::prelude::*;

verus! {

/// `std::sync::mpsc::Receiver`, carried as an opaque value.
#[verifier::external_type_specification]
#[verifier::external_body]
#[verifier::reject_recursive_types(T)]
pub struct ExReceiver<T>(std::sync::mpsc::Receiver<T>);

/// `std::sync::mpsc::Sender`, carried as an opaque value.
#[verifier::external_type_specification]
#[verifier::external_body]
#[verifier::reject_recursive_types(T)]
pub struct ExSender<T>(std::sync::mpsc::Sender<T>);

/// Calls `std::sync::mpsc::channel` for a fresh unbounded queue. Nothing is
/// claimed of the two ends.
#[verifier::external_body]
pub(crate) fn open_queue() -> (ends: (Sender<NewsCardData>, Receiver<NewsCardData>)) {
    std::sync::mpsc::channel()
}

/// Calls `Receiver::try_recv`, which returns at once. `None` stands for both
/// of its errors: nothing pending, and producer gone. Nothing is claimed of
/// which card comes back: that depends on what the producer has done so far.
#[verifier::external_body]
pub(crate) fn poll(rx: &Receiver<NewsCardData>) -> (pending: Option<NewsCardData>) {
    rx.try_recv().ok()
}

/// Calls `Sender::send`; `false` when it failed, which std documents to happen
/// only once the receiving end is gone. Nothing is claimed of the outcome.
#[verifier::external_body]
pub(crate) fn offer(tx: &Sender<NewsCardData>, card: NewsCardData) -> (accepted: bool) {
    tx.send(card).is_ok()
}

} // verus!

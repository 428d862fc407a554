//! The delivery side of the bounded channel: records are pushed without
//! blocking, and a push that cannot be accepted hands the record back instead
//! of losing it silently or stalling the monitor.

use vstd::prelude::*;

use crate::record::Process;

verus! {

#[verifier::external_type_specification]
#[verifier::external_body]
#[verifier::reject_recursive_types(T)]
pub struct ExSender<T>(crossbeam_channel::Sender<T>);

/// Why the channel did not accept a record; either way the rejected record
/// comes back unchanged, so nothing is ever delivered in part.
#[derive(Debug)]
pub enum DeliveryError {
    /// The channel's bounded capacity is exhausted.
    Full(Process),
    /// Every receiving half of the channel has been dropped.
    Closed(Process),
}

/// Relies on `crossbeam_channel::Sender::try_send`: it attempts the send
/// without blocking and, when the channel is full or disconnected, returns
/// the original message inside the error.
#[verifier::external_body]
pub(crate) fn try_send_process(tx: &crossbeam_channel::Sender<Process>, p: Process) -> (r: Result<
    (),
    DeliveryError,
>)
    ensures
        match r {
            Ok(accepted) => true,
            Err(DeliveryError::Full(q)) => q == p,
            Err(DeliveryError::Closed(q)) => q == p,
        },
{
    match tx.try_send(p) {
        Ok(()) => Ok(()),
        Err(crossbeam_channel::TrySendError::Full(q)) => Err(DeliveryError::Full(q)),
        Err(crossbeam_channel::TrySendError::Disconnected(q)) => Err(DeliveryError::Closed(q)),
    }
}

} // verus!

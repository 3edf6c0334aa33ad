//! Trusted declarations for the multi-producer, single-consumer channel that
//! carries progress records from reporters to the store.
//!
//! The channel is unbounded and non-blocking on the producer side. Whether a
//! send or receive succeeds depends on the other side of the channel, so none
//! of these contracts promises success; the verified callers state what holds
//! whatever comes back.

use std::sync::mpsc::Receiver;
use std::sync::mpsc::SendError;
use std::sync::mpsc::Sender;
use std::sync::mpsc::TryRecvError;
use vstd::prelude::*;

verus! {

/// Relies on `std::sync::mpsc::Sender`: the producer half of a channel.
#[verifier::external_type_specification]
#[verifier::external_body]
#[verifier::reject_recursive_types(T)]
pub struct ExSender<T>(Sender<T>);

/// Relies on `std::sync::mpsc::Receiver`: the consumer half of a channel.
#[verifier::external_type_specification]
#[verifier::external_body]
#[verifier::reject_recursive_types(T)]
pub struct ExReceiver<T>(Receiver<T>);

/// Relies on `std::sync::mpsc::SendError`: the rejected value, handed back
/// when the receiving half has been dropped.
#[verifier::external_type_specification]
#[verifier::external_body]
#[verifier::reject_recursive_types(T)]
pub struct ExSendError<T>(SendError<T>);

/// Relies on `std::sync::mpsc::TryRecvError`: why a non-blocking receive
/// yielded no value (empty or disconnected).
#[verifier::external_type_specification]
#[verifier::external_body]
pub struct ExTryRecvError(TryRecvError);

/// Relies on `std::sync::mpsc::channel`: a fresh unbounded channel pair.
pub assume_specification<T>[ std::sync::mpsc::channel::<T> ]() -> (Sender<T>, Receiver<T>);

/// Relies on `Sender::send`: enqueues the value without blocking; fails only
/// when the receiver has been dropped. Which outcome occurs depends on the
/// consumer side, so nothing is promised of the result.
pub assume_specification<T>[ Sender::<T>::send ](s: &Sender<T>, t: T) -> Result<(), SendError<T>>;

/// Relies on `Sender::clone`: another producer handle for the same channel.
pub assume_specification<T>[ <Sender<T> as Clone>::clone ](s: &Sender<T>) -> Sender<T>;

/// Relies on `Receiver::try_recv`: a non-blocking receive that returns a
/// queued value if one is pending. What arrives depends on the producers, so
/// nothing is promised of the result.
pub assume_specification<T>[ Receiver::<T>::try_recv ](r: &Receiver<T>) -> Result<T, TryRecvError>;

} // verus!

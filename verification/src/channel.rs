//! The bounded in-memory channels that carry events between actors, and the
//! priority attached to everything that travels through them.
//!
//! The channel itself is `futures::channel::mpsc`. Nothing is known here about
//! what its other end does, so the items below promise only what holds
//! whatever the channel answers.

use futures::channel::mpsc::{Receiver, Sender, UnboundedSender};
use futures::Stream;
use std::pin::Pin;
use std::task::{Context, Poll};
use vstd::prelude::*;

verus! {

/// The lane an item travels in. Control traffic is `High`, data is `Normal`.
#[derive(Clone, Copy, PartialEq, Eq, Structural, Debug)]
pub enum Priority {
    High,
    Normal,
}

impl Priority {
    pub fn is_high(self) -> (r: bool)
        ensures
            r == (self == Priority::High),
    {
        match self {
            Priority::High => true,
            Priority::Normal => false,
        }
    }

    pub fn is_normal(self) -> (r: bool)
        ensures
            r == (self == Priority::Normal),
    {
        match self {
            Priority::High => false,
            Priority::Normal => true,
        }
    }
}

/// `futures::channel::mpsc::Sender`: the sending half of a bounded channel.
/// Nothing is known of what it holds.
#[verifier::external_type_specification]
#[verifier::external_body]
#[verifier::reject_recursive_types(T)]
pub struct ExSender<T>(Sender<T>);

/// `futures::channel::mpsc::UnboundedSender`: the sending half of an
/// unbounded channel.
#[verifier::external_type_specification]
#[verifier::external_body]
#[verifier::reject_recursive_types(T)]
pub struct ExUnboundedSender<T>(UnboundedSender<T>);

/// `futures::channel::mpsc::Receiver`: the receiving half of a bounded
/// channel.
#[verifier::external_type_specification]
#[verifier::external_body]
#[verifier::reject_recursive_types(T)]
pub struct ExReceiver<T>(Receiver<T>);

/// `std::task::Context`: the task to wake when a channel can go on. It is
/// only passed through.
#[verifier::external_type_specification]
#[verifier::external_body]
pub struct ExContext<'a>(Context<'a>);

/// What a sender says when asked whether it can take one more item.
#[derive(Clone, Copy, PartialEq, Eq, Structural, Debug)]
pub enum Readiness {
    /// There is room for at least one item.
    Ready,
    /// The channel is full; the task is woken once there is room.
    NotReady,
    /// The receiving side is gone.
    Closed,
}

/// What a sender did with one item.
pub enum Offer<T> {
    /// The channel took the item.
    Sent,
    /// The channel is full; the item comes back.
    Full(T),
    /// The receiving side is gone; the item comes back.
    Closed(T),
}

/// What a receiver had when polled.
pub enum Polled<T> {
    /// The next item of the channel.
    Item(T),
    /// Every sender is gone and nothing is left to read.
    Closed,
    /// Nothing to read for now; the task is woken when there is.
    Pending,
}

/// `Sender::poll_ready`. The answer depends on the other end of the channel,
/// so nothing is claimed about it.
#[verifier::external_body]
pub(crate) fn poll_ready<T>(sender: &mut Sender<T>, cx: &mut Context<'_>) -> Readiness {
    match sender.poll_ready(cx) {
        Poll::Ready(Ok(())) => Readiness::Ready,
        Poll::Pending => Readiness::NotReady,
        Poll::Ready(Err(_)) => Readiness::Closed,
    }
}

/// `Sender::try_send`. Whether the channel takes the item depends on its other
/// end; when it does not, the error carries the very item that was offered.
#[verifier::external_body]
pub(crate) fn try_send<T>(sender: &mut Sender<T>, item: T) -> (r: Offer<T>)
    ensures
        r matches Offer::Full(back) ==> back == item,
        r matches Offer::Closed(back) ==> back == item,
{
    match sender.try_send(item) {
        Ok(()) => Offer::Sent,
        Err(e) => if e.is_full() {
            Offer::Full(e.into_inner())
        } else {
            Offer::Closed(e.into_inner())
        },
    }
}

/// `Sender::clone`: another handle on the same channel.
#[verifier::external_body]
pub(crate) fn clone_sender<T>(sender: &Sender<T>) -> Sender<T> {
    sender.clone()
}

/// `UnboundedSender::unbounded_send`. An unbounded channel is never full, but
/// its receiver may be gone; then the item comes back.
#[verifier::external_body]
pub(crate) fn unbounded_send<T>(sender: &UnboundedSender<T>, item: T) -> (r: Offer<T>)
    ensures
        r matches Offer::Full(back) ==> back == item,
        r matches Offer::Closed(back) ==> back == item,
{
    match sender.unbounded_send(item) {
        Ok(()) => Offer::Sent,
        Err(e) => if e.is_full() {
            Offer::Full(e.into_inner())
        } else {
            Offer::Closed(e.into_inner())
        },
    }
}

/// `UnboundedSender::clone`: another handle on the same channel.
#[verifier::external_body]
pub(crate) fn clone_unbounded_sender<T>(sender: &UnboundedSender<T>) -> UnboundedSender<T> {
    sender.clone()
}

/// `Receiver::poll_next`. What is read depends on the senders.
#[verifier::external_body]
pub(crate) fn poll_next<T>(receiver: &mut Receiver<T>, cx: &mut Context<'_>) -> Polled<T> {
    match Pin::new(receiver).poll_next(cx) {
        Poll::Ready(Some(item)) => Polled::Item(item),
        Poll::Ready(None) => Polled::Closed,
        Poll::Pending => Polled::Pending,
    }
}

/// `Receiver::close`: no sender can add to the channel any more.
#[verifier::external_body]
pub(crate) fn close_receiver<T>(receiver: &mut Receiver<T>) {
    receiver.close()
}

} // verus!

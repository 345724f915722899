//! The decisions of a forwarding task: what to do with each outcome of a
//! read on a session's subscription.

use vstd::prelude::*;
use crate::codec::{encode_message, message_line};

verus! {

/// The outcome of one read on a subscription.
#[derive(Debug, PartialEq, Eq)]
pub enum Delivery {
    /// A message arrived.
    Delivered(String),
    /// The subscriber was too slow and missed this many messages.
    Lagged(u64),
    /// The channel will yield nothing further.
    Closed,
}

/// The mathematical model of a [`Delivery`].
pub enum DeliveryView {
    Delivered(Seq<char>),
    Lagged(u64),
    Closed,
}

impl View for Delivery {
    type V = DeliveryView;

    open spec fn view(&self) -> DeliveryView {
        match self {
            Delivery::Delivered(text) => DeliveryView::Delivered(text@),
            Delivery::Lagged(missed) => DeliveryView::Lagged(*missed),
            Delivery::Closed => DeliveryView::Closed,
        }
    }
}

/// What a forwarding task does next.
#[derive(Debug, PartialEq, Eq)]
pub enum Forwarding {
    /// Write this line to the session's connection, then read on.
    Write(String),
    /// Read on.
    Continue,
    /// End the task.
    Stop,
}

/// The mathematical model of a [`Forwarding`].
pub enum ForwardingView {
    Write(Seq<char>),
    Continue,
    Stop,
}

impl View for Forwarding {
    type V = ForwardingView;

    open spec fn view(&self) -> ForwardingView {
        match self {
            Forwarding::Write(line) => ForwardingView::Write(line@),
            Forwarding::Continue => ForwardingView::Continue,
            Forwarding::Stop => ForwardingView::Stop,
        }
    }
}

/// The step that follows a delivery: a message is written to the connection
/// as a message line, lag is survived, and a closed channel ends the task.
pub open spec fn forwarding_of(delivery: DeliveryView) -> ForwardingView {
    match delivery {
        DeliveryView::Delivered(text) => ForwardingView::Write(message_line(text)),
        DeliveryView::Lagged(_) => ForwardingView::Continue,
        DeliveryView::Closed => ForwardingView::Stop,
    }
}

/// Decides what a forwarding task does with one delivery.
pub fn forward(delivery: Delivery) -> (step: Forwarding)
    ensures
        step@ == forwarding_of(delivery@),
{
    match delivery {
        Delivery::Delivered(text) => Forwarding::Write(encode_message(text.as_str())),
        Delivery::Lagged(_) => Forwarding::Continue,
        Delivery::Closed => Forwarding::Stop,
    }
}

} // verus!

//! The bounded queue in front of an Application stream: what it carries, and
//! the record of one offer made to it.

use vstd::prelude::*;

use tokio::sync::mpsc::Sender;

use crate::event_model::RuntimeEvent;

verus! {

/// `tokio::sync::mpsc::Sender`, the sending half of a stream's bounded queue;
/// nothing is known of what it holds.
#[verifier::external_type_specification]
#[verifier::external_body]
#[verifier::reject_recursive_types(T)]
pub struct ExSender<T>(Sender<T>);

/// What an Application stream's queue carries.
#[derive(Debug)]
pub enum StreamItem {
    Event(Box<RuntimeEvent>),
}

/// What became of an item offered to a stream's queue: queued, refused for
/// want of room, or refused because the stream has ended.
#[derive(Clone, Copy, Debug, PartialEq, Eq, Structural)]
pub enum Offer {
    Queued,
    Full,
    Closed,
}

/// The record of one offer: the queue's answer, and (as ghost state) the
/// queue and the item that were offered. Only an offer makes one.
pub struct OfferReceipt {
    outcome: Offer,
    sender: Ghost<Sender<StreamItem>>,
    item: Ghost<StreamItem>,
}

impl OfferReceipt {
    /// The queue's answer.
    pub closed spec fn answer(&self) -> Offer {
        self.outcome
    }

    /// The queue the item was offered to.
    pub closed spec fn offered_to(&self) -> Sender<StreamItem> {
        self.sender@
    }

    /// The item that was offered.
    pub closed spec fn offered_item(&self) -> StreamItem {
        self.item@
    }

    /// The queue's answer.
    pub fn outcome(&self) -> (r: Offer)
        ensures
            r == self.answer(),
    {
        self.outcome
    }
}

/// `tokio::sync::mpsc::Sender::try_send`, without waiting: the record names
/// the queue and the item offered. Which of the three answers comes depends
/// on the stream's receiver (its room, whether it is still there), and
/// nothing is stated of it.
#[verifier::external_body]
pub(crate) fn offer(sender: &Sender<StreamItem>, item: StreamItem) -> (r: OfferReceipt)
    ensures
        r.offered_to() == *sender,
        r.offered_item() == item,
{
    let offered_to = Ghost(*sender);
    let offered_item = Ghost(item);
    let outcome = match sender.try_send(item) {
        Ok(()) => Offer::Queued,
        Err(tokio::sync::mpsc::error::TrySendError::Full(_)) => Offer::Full,
        Err(tokio::sync::mpsc::error::TrySendError::Closed(_)) => Offer::Closed,
    };
    OfferReceipt { outcome, sender: offered_to, item: offered_item }
}

} // verus!

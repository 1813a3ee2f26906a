//! Messages that the bridge hands to the bus client.

use vstd::prelude::*;

verus! {

/// How hard the bus tries to deliver a message.
#[derive(Clone, Copy, Debug, PartialEq, Eq, Structural)]
pub enum Delivery {
    /// Once or not at all.
    AtMostOnce,
    /// Once or more often.
    AtLeastOnce,
    /// Once.
    ExactlyOnce,
}

/// A message to publish.
#[derive(Debug)]
pub struct OutboundMessage {
    pub topic: String,
    pub payload: String,
    pub delivery: Delivery,
    /// Whether the broker keeps the message for those who subscribe later.
    pub retained: bool,
}

/// A message as plain values.
pub struct MessageView {
    pub topic: Seq<char>,
    pub payload: Seq<char>,
    pub delivery: Delivery,
    pub retained: bool,
}

impl View for OutboundMessage {
    type V = MessageView;

    open spec fn view(&self) -> MessageView {
        MessageView {
            topic: self.topic@,
            payload: self.payload@,
            delivery: self.delivery,
            retained: self.retained,
        }
    }
}

} // verus!

//! The ordered message queue behind the server's inbound queue and the
//! client's inbox.
//!
//! Messages are appended at the back and leave all at once: a drain hands out
//! everything queued, in arrival order, or reports that nothing is there.

use vstd::prelude::*;
use crate::message::Message;
use crate::message::MessageView;
use crate::message::views;

verus! {

/// An append-only sequence of messages that is emptied by draining.
pub struct MessageQueue {
    messages: Vec<Message>,
}

impl View for MessageQueue {
    type V = Seq<MessageView>;

    closed spec fn view(&self) -> Seq<MessageView> {
        views(self.messages@)
    }
}

/// What a drain of `queue` hands out: nothing where the queue is empty, else
/// all of it.
pub open spec fn drain_yield(queue: Seq<MessageView>) -> Option<Seq<MessageView>> {
    if queue.len() == 0 {
        None
    } else {
        Some(queue)
    }
}

/// What a drain leaves behind: always the empty queue.
pub open spec fn drain_rest(queue: Seq<MessageView>) -> Seq<MessageView> {
    Seq::empty()
}

/// The values of a drained batch, where there is one.
pub open spec fn batch_views(batch: Option<Vec<Message>>) -> Option<Seq<MessageView>> {
    match batch {
        Some(messages) => Some(views(messages@)),
        None => None,
    }
}

/// Drain law: an empty queue yields nothing; a queue that received one
/// message since it was empty yields exactly that message and is empty
/// afterwards, so that a second drain yields nothing again.
pub proof fn lemma_drain_single(m: MessageView)
    ensures
        drain_yield(Seq::empty()) is None,
        drain_yield(Seq::<MessageView>::empty().push(m)) == Some(seq![m]),
        drain_rest(Seq::<MessageView>::empty().push(m)) == Seq::<MessageView>::empty(),
        drain_yield(drain_rest(Seq::<MessageView>::empty().push(m))) is None,
{
}

/// Drain law: whatever was queued, a drain leaves a queue from which an
/// immediate second drain yields nothing, and what it hands out is never an
/// empty batch.
pub proof fn lemma_drain_is_total(queue: Seq<MessageView>)
    ensures
        drain_yield(drain_rest(queue)) is None,
        drain_yield(queue) matches Some(batch) ==> batch == queue && batch.len() > 0,
{
}

impl MessageQueue {
    /// An empty queue.
    pub fn new() -> (queue: Self)
        ensures
            queue@ == Seq::<MessageView>::empty(),
    {
        MessageQueue { messages: Vec::new() }
    }

    /// The number of queued messages.
    pub fn len(&self) -> (n: usize)
        ensures
            n == self@.len(),
    {
        self.messages.len()
    }

    /// Whether nothing is queued.
    pub fn is_empty(&self) -> (empty: bool)
        ensures
            empty == (self@.len() == 0),
    {
        self.messages.len() == 0
    }

    /// Queues one message behind those already there.
    pub fn push(&mut self, message: Message)
        ensures
            final(self)@ == old(self)@.push(message@),
    {
        self.messages.push(message);
    }

    /// Queues a batch of messages, in its order, behind those already there.
    pub fn append(&mut self, batch: Vec<Message>)
        ensures
            final(self)@ == old(self)@ + views(batch@),
    {
        let mut incoming = batch;
        self.messages.append(&mut incoming);
    }

    /// Removes and returns everything queued, in arrival order, or `None`
    /// where nothing was queued. Either way the queue is empty afterwards.
    pub fn drain(&mut self) -> (batch: Option<Vec<Message>>)
        ensures
            batch_views(batch) == drain_yield(old(self)@),
            final(self)@ == drain_rest(old(self)@),
    {
        if self.messages.len() == 0 {
            return None;
        }
        let mut batch: Vec<Message> = Vec::new();
        core::mem::swap(&mut self.messages, &mut batch);
        Some(batch)
    }
}

} // verus!

//! Bounded, non-blocking mailbox between the control side and the audio
//! callback. A send into a full mailbox fails at once and the message is
//! handed back; nothing already queued is displaced or reordered.
use vstd::prelude::*;

verus! {

/// The message that a full mailbox did not take.
#[derive(Debug)]
pub struct ChannelFull<T> {
    pub message: T,
}

/// First-in, first-out mailbox that holds at most `capacity` messages.
pub struct Mailbox<T> {
    capacity: usize,
    items: Vec<T>,
}

impl<T> View for Mailbox<T> {
    type V = Seq<T>;

    /// The queued messages, oldest first.
    closed spec fn view(&self) -> Seq<T> {
        self.items@
    }
}

impl<T> Mailbox<T> {
    /// The mailbox holds no more than its limit.
    pub closed spec fn wf(&self) -> bool {
        self.items@.len() <= self.capacity
    }

    /// The most messages the mailbox holds at a time.
    pub closed spec fn limit(&self) -> nat {
        self.capacity as nat
    }

    /// An empty mailbox for at most `capacity` messages.
    pub fn new(capacity: usize) -> (r: Mailbox<T>)
        ensures
            r.wf(),
            r@ == Seq::<T>::empty(),
            r.limit() == capacity,
    {
        Mailbox { capacity, items: Vec::new() }
    }

    /// Number of queued messages; never more than the limit.
    pub fn len(&self) -> (n: usize)
        requires
            self.wf(),
        ensures
            n == self@.len(),
            n <= self.limit(),
    {
        self.items.len()
    }

    /// Whether a send would fail.
    pub fn is_full(&self) -> (b: bool)
        requires
            self.wf(),
        ensures
            b == !has_room(self@, self.limit()),
    {
        self.items.len() >= self.capacity
    }

    /// Queues `message` behind the others if there is room. A full mailbox
    /// stays as it is and hands the message back.
    pub fn try_send(&mut self, message: T) -> (r: Result<(), ChannelFull<T>>)
        requires
            old(self).wf(),
        ensures
            final(self).wf(),
            final(self).limit() == old(self).limit(),
            final(self)@ == after_send(old(self)@, old(self).limit(), message),
            has_room(old(self)@, old(self).limit()) ==> r is Ok,
            !has_room(old(self)@, old(self).limit()) ==> r == Err::<(), ChannelFull<T>>(
                ChannelFull { message },
            ),
    {
        if self.items.len() >= self.capacity {
            Err(ChannelFull { message })
        } else {
            self.items.push(message);
            Ok(())
        }
    }

    /// Takes the oldest message, if there is one.
    pub fn try_recv(&mut self) -> (r: Option<T>)
        requires
            old(self).wf(),
        ensures
            final(self).wf(),
            final(self).limit() == old(self).limit(),
            r == oldest(old(self)@),
            final(self)@ == after_recv(old(self)@),
    {
        if self.items.len() == 0 {
            None
        } else {
            let m = self.items.remove(0);
            assert(self.items@ =~= old(self).items@.drop_first());
            Some(m)
        }
    }
}

/// Whether a mailbox with `queue` has room under `limit`.
pub open spec fn has_room<T>(queue: Seq<T>, limit: nat) -> bool {
    queue.len() < limit
}

/// The queue after a send: the message at the back if there was room, the
/// queue as it was if not.
pub open spec fn after_send<T>(queue: Seq<T>, limit: nat, message: T) -> Seq<T> {
    if has_room(queue, limit) {
        queue.push(message)
    } else {
        queue
    }
}

/// The message that a receive delivers.
pub open spec fn oldest<T>(queue: Seq<T>) -> Option<T> {
    if queue.len() > 0 {
        Some(queue[0])
    } else {
        None
    }
}

/// The queue after a receive.
pub open spec fn after_recv<T>(queue: Seq<T>) -> Seq<T> {
    if queue.len() > 0 {
        queue.drop_first()
    } else {
        queue
    }
}

/// With room for one message, the second of two sends into an empty mailbox
/// with no receive in between finds no room and changes nothing; the
/// receive that follows delivers the first message and leaves the mailbox
/// empty.
pub proof fn lemma_second_send_is_dropped<T>(first: T, second: T)
    ensures
        ({
            let q0 = Seq::<T>::empty();
            let q1 = after_send(q0, 1, first);
            let q2 = after_send(q1, 1, second);
            &&& has_room(q0, 1)
            &&& !has_room(q1, 1)
            &&& q2 == q1
            &&& oldest(q2) == Some(first)
            &&& after_recv(q2) == q0
        }),
{
    assert(Seq::<T>::empty().push(first).drop_first() =~= Seq::<T>::empty());
}

/// A mailbox never grows past its limit, and a send never reorders or
/// removes what is queued: the old queue is a prefix of the new one.
pub proof fn lemma_send_keeps_queue<T>(queue: Seq<T>, limit: nat, message: T)
    requires
        queue.len() <= limit,
    ensures
        after_send(queue, limit, message).len() <= limit,
        queue.is_prefix_of(after_send(queue, limit, message)),
{
}

} // verus!

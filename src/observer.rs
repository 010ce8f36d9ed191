//! The bounded observer queue beside the key-event path: every forwarded event
//! is also queued for an observer, and a full queue drops its oldest entry
//! rather than hold the producer back.

use vstd::prelude::*;
use crate::layers::KeyEvent;

verus! {

/// The depth of the observer queue that the firmware uses.
pub const OBSERVER_DEPTH: usize = 16;

/// The queue after enqueuing `e` with room for `cap` entries: when full, the
/// oldest entry goes first.
pub open spec fn enqueued(q: Seq<KeyEvent>, cap: nat, e: KeyEvent) -> Seq<KeyEvent> {
    if q.len() >= cap {
        q.drop_first().push(e)
    } else {
        q.push(e)
    }
}

/// The queue after enqueuing each of `s` in turn, with no drain in between.
pub open spec fn enqueued_all(q: Seq<KeyEvent>, cap: nat, s: Seq<KeyEvent>) -> Seq<KeyEvent>
    decreases s.len(),
{
    if s.len() == 0 {
        q
    } else {
        enqueued(enqueued_all(q, cap, s.drop_last()), cap, s.last())
    }
}

/// A fixed-capacity FIFO of key events that evicts its oldest entry when full.
pub struct ObserverQueue {
    items: Vec<KeyEvent>,
    capacity: usize,
}

impl View for ObserverQueue {
    type V = Seq<KeyEvent>;

    closed spec fn view(&self) -> Seq<KeyEvent> {
        self.items@
    }
}

impl ObserverQueue {
    pub closed spec fn cap(&self) -> nat {
        self.capacity as nat
    }

    pub open spec fn wf(&self) -> bool {
        self.cap() >= 1 && self@.len() <= self.cap()
    }

    /// An empty queue with room for `capacity` events; `None` for a capacity of 0.
    pub fn new(capacity: usize) -> (r: Option<ObserverQueue>)
        ensures
            capacity >= 1 <==> r.is_some(),
            r matches Some(q) ==> q.wf() && q@ == Seq::<KeyEvent>::empty() && q.cap()
                == capacity,
    {
        if capacity >= 1 {
            Some(ObserverQueue { items: Vec::new(), capacity })
        } else {
            None
        }
    }

    pub fn capacity(&self) -> (r: usize)
        ensures
            r == self.cap(),
    {
        self.capacity
    }

    pub fn len(&self) -> (r: usize)
        ensures
            r == self@.len(),
    {
        self.items.len()
    }

    pub fn is_empty(&self) -> (r: bool)
        ensures
            r == (self@.len() == 0),
    {
        self.items.len() == 0
    }

    /// Enqueues `e`, first dropping the oldest entry when the queue is full.
    pub fn push(&mut self, e: KeyEvent)
        requires
            old(self).wf(),
        ensures
            final(self).wf(),
            final(self).cap() == old(self).cap(),
            final(self)@ == enqueued(old(self)@, old(self).cap(), e),
    {
        if self.items.len() >= self.capacity {
            self.items.remove(0);
            assert(self.items@ =~= old(self)@.drop_first());
        }
        self.items.push(e);
    }

    /// Dequeues the oldest entry, if any.
    pub fn pop(&mut self) -> (r: Option<KeyEvent>)
        requires
            old(self).wf(),
        ensures
            final(self).wf(),
            final(self).cap() == old(self).cap(),
            old(self)@.len() == 0 ==> r.is_none() && final(self)@ == old(self)@,
            old(self)@.len() > 0 ==> r == Some(old(self)@[0]) && final(self)@
                == old(self)@.drop_first(),
    {
        if self.items.len() == 0 {
            None
        } else {
            let e = self.items.remove(0);
            assert(self.items@ =~= old(self)@.drop_first());
            Some(e)
        }
    }
}

/// Forwards key events from their producer to its consumer unchanged, and
/// queues a copy of each for an observer.
pub struct EventBridge {
    observer: ObserverQueue,
}

impl EventBridge {
    pub closed spec fn queue(&self) -> ObserverQueue {
        self.observer
    }

    pub open spec fn wf(&self) -> bool {
        self.queue().wf()
    }

    /// A bridge whose observer queue holds up to `depth` events; `None` for a depth of 0.
    pub fn new(depth: usize) -> (r: Option<EventBridge>)
        ensures
            depth >= 1 <==> r.is_some(),
            r matches Some(b) ==> b.wf() && b.queue()@ == Seq::<KeyEvent>::empty()
                && b.queue().cap() == depth,
    {
        match ObserverQueue::new(depth) {
            Some(observer) => Some(EventBridge { observer }),
            None => None,
        }
    }

    /// Hands `e` on to the consumer and queues it for the observer.
    pub fn forward(&mut self, e: KeyEvent) -> (r: KeyEvent)
        requires
            old(self).wf(),
        ensures
            r == e,
            final(self).wf(),
            final(self).queue().cap() == old(self).queue().cap(),
            final(self).queue()@ == enqueued(old(self).queue()@, old(self).queue().cap(), e),
    {
        self.observer.push(e);
        e
    }

    /// The oldest event that the observer has not taken yet.
    pub fn observe(&mut self) -> (r: Option<KeyEvent>)
        requires
            old(self).wf(),
        ensures
            final(self).wf(),
            final(self).queue().cap() == old(self).queue().cap(),
            old(self).queue()@.len() == 0 ==> r.is_none()
                && final(self).queue()@ == old(self).queue()@,
            old(self).queue()@.len() > 0 ==> r == Some(old(self).queue()@[0])
                && final(self).queue()@ == old(self).queue()@.drop_first(),
    {
        self.observer.pop()
    }
}

/// However many events arrive before the observer drains, the queue never
/// holds more than its capacity, and what it holds is the newest part of all
/// that was queued, in arrival order: some oldest events may be lost, none is
/// reordered.
pub proof fn lemma_enqueue_keeps_newest_suffix(q: Seq<KeyEvent>, cap: nat, s: Seq<KeyEvent>)
    requires
        cap >= 1,
        q.len() <= cap,
    ensures
        ({
            let all = q + s;
            let r = enqueued_all(q, cap, s);
            &&& r.len() <= cap
            &&& r.len() == if all.len() < cap { all.len() } else { cap }
            &&& r == all.subrange(all.len() - r.len(), all.len() as int)
        }),
    decreases s.len(),
{
    if s.len() == 0 {
        assert(q + s =~= q);
        assert(q.subrange(0, q.len() as int) =~= q);
    } else {
        let w = q + s.drop_last();
        lemma_enqueue_keeps_newest_suffix(q, cap, s.drop_last());
        let prev = enqueued_all(q, cap, s.drop_last());
        let all = q + s;
        assert(all =~= w.push(s.last()));
        let k = prev.len();
        if k >= cap {
            assert(prev.drop_first().push(s.last()) =~= all.subrange(
                all.len() - k,
                all.len() as int,
            ));
        } else {
            assert(prev.push(s.last()) =~= all.subrange(all.len() - (k + 1), all.len() as int));
        }
    }
}

} // verus!

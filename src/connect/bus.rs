//! The event bus: fans each classified event out to every subscriber that
//! registered before it was published. Each subscriber reads from a bounded
//! window of recent events, so a slow one loses its oldest events instead of
//! holding up the publisher.
use vstd::prelude::*;

verus! {

/// The index of the oldest event still held when `len` events were published
/// into a window of `capacity`.
pub open spec fn window_start(len: nat, capacity: nat) -> nat {
    if len > capacity {
        (len - capacity) as nat
    } else {
        0
    }
}

/// What a subscriber standing at `next` will still receive, in order: the
/// events from `next` on, less those that fell out of the window.
pub open spec fn backlog<T>(history: Seq<T>, capacity: nat, next: nat) -> Seq<T> {
    let b = window_start(history.len(), capacity);
    let start = if next > b { next } else { b };
    if start <= history.len() {
        history.subrange(start as int, history.len() as int)
    } else {
        Seq::empty()
    }
}

/// A subscriber's place in the stream: the index of the next event it reads.
#[derive(Clone, Copy, Debug, PartialEq, Eq)]
pub struct Subscription {
    next: u64,
}

impl Subscription {
    pub closed spec fn next_index(&self) -> nat {
        self.next as nat
    }

    /// The index of the next event this subscriber reads.
    pub fn position(&self) -> (r: u64)
        ensures
            r == self.next_index(),
    {
        self.next
    }
}

/// The publish side of the bus, holding the most recent events.
pub struct EventBus<T> {
    window: Vec<T>,
    capacity: usize,
    published: u64,
    history: Ghost<Seq<T>>,
}

impl<T> View for EventBus<T> {
    type V = Seq<T>;

    /// Every event ever published, oldest first.
    closed spec fn view(&self) -> Seq<T> {
        self.history@
    }
}

impl<T> EventBus<T> {
    pub closed spec fn cap(&self) -> nat {
        self.capacity as nat
    }

    pub closed spec fn wf(&self) -> bool {
        &&& self.capacity > 0
        &&& self.published == self.history@.len()
        &&& self.window@.len() == (if self.history@.len() > self.capacity {
            self.capacity as nat
        } else {
            self.history@.len()
        })
        &&& self.window@ == self.history@.subrange(
            self.history@.len() - self.window@.len(),
            self.history@.len() as int,
        )
    }

    /// A bus that keeps the last `capacity` events for each subscriber.
    pub fn new(capacity: usize) -> (r: EventBus<T>)
        requires
            capacity > 0,
        ensures
            r.wf(),
            r@ == Seq::<T>::empty(),
            r.cap() == capacity,
    {
        let r = EventBus { window: Vec::new(), capacity, published: 0, history: Ghost(Seq::empty()) };
        assert(r.window@ =~= r.history@.subrange(0, 0));
        r
    }

    pub fn capacity(&self) -> (r: usize)
        ensures
            r == self.cap(),
    {
        self.capacity
    }

    /// How many events were published so far.
    pub fn published(&self) -> (r: u64)
        requires
            self.wf(),
        ensures
            r == self@.len(),
    {
        self.published
    }

    /// A new subscriber: it receives only what is published from now on.
    pub fn subscribe(&self) -> (r: Subscription)
        requires
            self.wf(),
        ensures
            r.next_index() == self@.len(),
            backlog(self@, self.cap(), r.next_index()) == Seq::<T>::empty(),
    {
        let r = Subscription { next: self.published };
        assert(backlog(self@, self.cap(), r.next_index()) =~= Seq::<T>::empty());
        r
    }

    /// Delivers an event to every current subscriber; when the window is full
    /// the oldest event leaves it. Never waits on any subscriber.
    pub fn publish(&mut self, event: T)
        requires
            old(self).wf(),
            old(self)@.len() < u64::MAX,
        ensures
            final(self).wf(),
            final(self)@ == old(self)@.push(event),
            final(self).cap() == old(self).cap(),
    {
        let ghost h = self.history@.push(event);
        if self.window.len() == self.capacity {
            self.window.remove(0);
        }
        self.window.push(event);
        self.published = self.published + 1;
        self.history = Ghost(h);
        assert(self.window@ =~= h.subrange(h.len() - self.window@.len(), h.len() as int));
    }

    /// Takes the next event for this subscriber: the first of its backlog, if
    /// any. A subscriber that fell behind the window skips to its oldest event.
    pub fn recv(&self, sub: &mut Subscription) -> (r: Option<&T>)
        requires
            self.wf(),
        ensures
            ({
                let bl = backlog(self@, self.cap(), old(sub).next_index());
                &&& bl.len() == 0 ==> r.is_none() && *final(sub) == *old(sub)
                &&& bl.len() > 0 ==> {
                    &&& r.is_some()
                    &&& *r.unwrap() == bl[0]
                    &&& backlog(self@, self.cap(), final(sub).next_index()) == bl.drop_first()
                }
            }),
    {
        let base = self.published - self.window.len() as u64;
        let start = if sub.next > base { sub.next } else { base };
        if start >= self.published {
            return None;
        }
        let ghost bl = backlog(self@, self.cap(), sub.next_index());
        let r = &self.window[(start - base) as usize];
        sub.next = start + 1;
        assert(backlog(self@, self.cap(), sub.next_index()) =~= bl.drop_first());
        Some(r)
    }
}

/// A subscriber sees exactly what was published after it registered, in
/// publish order, as long as it keeps within the window; in any case it never
/// sees an event published before it registered, only a suffix of the later
/// ones.
pub proof fn lemma_subscriber_sees_from_registration<T>(
    before: Seq<T>,
    later: Seq<T>,
    capacity: nat,
)
    requires
        capacity > 0,
    ensures
        later.len() <= capacity ==> backlog(before + later, capacity, before.len()) == later,
        ({
            let bl = backlog(before + later, capacity, before.len());
            &&& bl.len() <= later.len()
            &&& bl == later.subrange(later.len() - bl.len(), later.len() as int)
        }),
{
    let h = before + later;
    let bl = backlog(h, capacity, before.len());
    let b = window_start(h.len(), capacity);
    let start = if before.len() > b { before.len() } else { b };
    assert(bl =~= later.subrange(start - before.len(), later.len() as int));
    if later.len() <= capacity {
        assert(bl =~= later);
    }
}

} // verus!

//! The fan-out hub: a registry of subscribers, each with a bounded queue of
//! its own. A payload that is broadcast goes to the back of every queue; a
//! queue that is full gives up its oldest payload to make room, so that one
//! slow subscriber costs nobody but itself.

use vstd::prelude::*;
use crate::wire::copy_range;

verus! {

/// How many payloads a subscriber's queue holds in the relay.
pub const HUB_CAPACITY: usize = 1000;

/// One subscriber of the hub.
pub struct Subscriber {
    pub id: u64,
    pub queue: Vec<Vec<u8>>,
}

/// The hub.
pub struct Broadcaster {
    capacity: usize,
    next_id: u64,
    subscribers: Vec<Subscriber>,
}

/// A queue after one more payload arrived: the payload stands last, and
/// where the queue was full its oldest payload is gone.
pub open spec fn push_bounded(queue: Seq<Seq<u8>>, payload: Seq<u8>, capacity: nat) -> Seq<
    Seq<u8>,
> {
    if queue.len() < capacity {
        queue.push(payload)
    } else {
        queue.drop_first().push(payload)
    }
}

/// The payloads of a queue as byte strings.
pub open spec fn queue_view(queue: Seq<Vec<u8>>) -> Seq<Seq<u8>> {
    queue.map_values(|p: Vec<u8>| p@)
}

/// The position of the subscriber with this number, if it is registered.
pub open spec fn position_of(ids: Seq<u64>, id: u64) -> Option<int> {
    if exists|i: int| 0 <= i < ids.len() && ids[i] == id {
        Some(choose|i: int| 0 <= i < ids.len() && ids[i] == id)
    } else {
        None
    }
}

impl Broadcaster {
    /// How many payloads a queue holds at most.
    pub closed spec fn capacity(&self) -> nat {
        self.capacity as nat
    }

    /// The numbers of the subscribers, in the order they registered.
    pub closed spec fn ids(&self) -> Seq<u64> {
        self.subscribers@.map_values(|s: Subscriber| s.id)
    }

    /// The queues of the subscribers, in the same order, oldest payload
    /// first.
    pub closed spec fn queues(&self) -> Seq<Seq<Seq<u8>>> {
        self.subscribers@.map_values(|s: Subscriber| queue_view(s.queue@))
    }

    /// The number the next subscriber gets.
    pub closed spec fn next_id(&self) -> u64 {
        self.next_id
    }

    /// The hub's invariant: a positive capacity that no queue exceeds, and
    /// subscriber numbers that are distinct and below the next one.
    pub closed spec fn wf(&self) -> bool {
        &&& self.capacity > 0
        &&& forall|i: int|
            0 <= i < self.subscribers@.len() ==> (#[trigger] self.subscribers@[i]).queue@.len()
                <= self.capacity
        &&& forall|i: int|
            0 <= i < self.subscribers@.len() ==> (#[trigger] self.subscribers@[i]).id
                < self.next_id
        &&& forall|i: int, j: int|
            0 <= i < j < self.subscribers@.len() ==> (#[trigger] self.subscribers@[i]).id != (
            #[trigger] self.subscribers@[j]).id
    }

    /// What the invariant says in terms of the hub's public view.
    pub proof fn lemma_wf(&self)
        requires
            self.wf(),
        ensures
            self.capacity() > 0,
            self.ids().len() == self.queues().len(),
            forall|i: int| 0 <= i < self.queues().len() ==> (#[trigger] self.queues()[i]).len()
                <= self.capacity(),
            forall|i: int| 0 <= i < self.ids().len() ==> (#[trigger] self.ids()[i])
                < self.next_id(),
            forall|i: int, j: int|
                0 <= i < j < self.ids().len() ==> (#[trigger] self.ids()[i]) != (
                #[trigger] self.ids()[j]),
    {
    }

    /// A hub without subscribers whose queues will hold `capacity` payloads.
    pub fn new(capacity: usize) -> (hub: Broadcaster)
        requires
            capacity > 0,
        ensures
            hub.wf(),
            hub.capacity() == capacity,
            hub.ids() == Seq::<u64>::empty(),
            hub.queues() == Seq::<Seq<Seq<u8>>>::empty(),
            hub.next_id() == 1,
    {
        let hub = Broadcaster { capacity, next_id: 1, subscribers: Vec::new() };
        hub
    }

    /// How many subscribers are registered.
    pub fn subscriber_count(&self) -> (n: usize)
        ensures
            n == self.ids().len(),
    {
        self.subscribers.len()
    }

    /// Where the subscriber with this number stands in the registry.
    fn find(&self, id: u64) -> (r: Option<usize>)
        requires
            self.wf(),
        ensures
            match r {
                Some(i) => i < self.subscribers@.len() && self.subscribers@[i as int].id == id
                    && position_of(self.ids(), id) == Some(i as int),
                None => position_of(self.ids(), id) is None && forall|k: int|
                    0 <= k < self.subscribers@.len() ==> (#[trigger] self.subscribers@[k]).id
                        != id,
            },
    {
        let mut i: usize = 0;
        while i < self.subscribers.len()
            invariant
                self.wf(),
                i <= self.subscribers@.len(),
                forall|k: int| 0 <= k < i ==> (#[trigger] self.subscribers@[k]).id != id,
            decreases self.subscribers@.len() - i,
        {
            if self.subscribers[i].id == id {
                assert(self.ids()[i as int] == id);
                return Some(i);
            }
            i = i + 1;
        }
        None
    }

    /// Registers a subscriber with an empty queue and gives its number.
    /// `None`, with nothing changed, once the numbers have run out.
    pub fn subscribe(&mut self) -> (r: Option<u64>)
        requires
            old(self).wf(),
        ensures
            final(self).wf(),
            final(self).capacity() == old(self).capacity(),
            old(self).next_id() == u64::MAX ==> {
                &&& r is None
                &&& final(self).ids() == old(self).ids()
                &&& final(self).queues() == old(self).queues()
                &&& final(self).next_id() == old(self).next_id()
            },
            old(self).next_id() < u64::MAX ==> {
                &&& r == Some(old(self).next_id())
                &&& final(self).ids() == old(self).ids().push(old(self).next_id())
                &&& final(self).queues() == old(self).queues().push(Seq::empty())
                &&& final(self).next_id() == old(self).next_id() + 1
            },
    {
        if self.next_id == u64::MAX {
            return None;
        }
        let id = self.next_id;
        self.subscribers.push(Subscriber { id, queue: Vec::new() });
        self.next_id = id + 1;
        assert(queue_view(Seq::<Vec<u8>>::empty()) =~= Seq::<Seq<u8>>::empty());
        Some(id)
    }

    /// Removes the subscriber with this number, with whatever is still in
    /// its queue. Says whether there was one.
    pub fn unsubscribe(&mut self, id: u64) -> (removed: bool)
        requires
            old(self).wf(),
        ensures
            final(self).wf(),
            final(self).capacity() == old(self).capacity(),
            final(self).next_id() == old(self).next_id(),
            match position_of(old(self).ids(), id) {
                Some(i) => {
                    &&& removed
                    &&& final(self).ids() == old(self).ids().remove(i)
                    &&& final(self).queues() == old(self).queues().remove(i)
                },
                None => {
                    &&& !removed
                    &&& final(self).ids() == old(self).ids()
                    &&& final(self).queues() == old(self).queues()
                },
            },
    {
        match self.find(id) {
            Some(i) => {
                let _ = self.subscribers.remove(i);
                true
            },
            None => false,
        }
    }

    /// Puts a copy of `payload` at the back of every subscriber's queue,
    /// dropping the oldest payload of each queue that is full. Gives the
    /// number of subscribers reached.
    pub fn broadcast(&mut self, payload: &[u8]) -> (reached: usize)
        requires
            old(self).wf(),
        ensures
            final(self).wf(),
            final(self).capacity() == old(self).capacity(),
            final(self).next_id() == old(self).next_id(),
            final(self).ids() == old(self).ids(),
            final(self).queues().len() == old(self).queues().len(),
            forall|i: int|
                0 <= i < old(self).queues().len() ==> #[trigger] final(self).queues()[i]
                    == push_bounded(old(self).queues()[i], payload@, old(self).capacity()),
            reached == old(self).ids().len(),
    {
        let n = self.subscribers.len();
        let mut i: usize = 0;
        while i < n
            invariant
                i <= n,
                n == self.subscribers@.len(),
                n == old(self).subscribers@.len(),
                self.capacity == old(self).capacity,
                self.capacity > 0,
                self.next_id == old(self).next_id,
                forall|k: int|
                    0 <= k < n ==> (#[trigger] self.subscribers@[k]).id == old(
                        self,
                    ).subscribers@[k].id,
                forall|k: int|
                    0 <= k < n ==> (#[trigger] self.subscribers@[k]).queue@.len() <= self.capacity,
                forall|k: int|
                    0 <= k < i ==> queue_view((#[trigger] self.subscribers@[k]).queue@)
                        == push_bounded(
                        queue_view(old(self).subscribers@[k].queue@),
                        payload@,
                        self.capacity as nat,
                    ),
                forall|k: int|
                    i <= k < n ==> (#[trigger] self.subscribers@[k]).queue@ == old(
                        self,
                    ).subscribers@[k].queue@,
            decreases n - i,
        {
            let ghost queue = self.subscribers@[i as int].queue@;
            let copy = copy_range(payload, 0, payload.len());
            assert(copy@ =~= payload@);
            if self.subscribers[i].queue.len() >= self.capacity {
                let _ = self.subscribers[i].queue.remove(0);
                assert(queue_view(self.subscribers@[i as int].queue@) =~= queue_view(
                    queue,
                ).drop_first());
            }
            let ghost middle = self.subscribers@[i as int].queue@;
            self.subscribers[i].queue.push(copy);
            assert(queue_view(self.subscribers@[i as int].queue@) =~= queue_view(middle).push(
                payload@,
            ));
            i = i + 1;
        }
        assert forall|k: int| 0 <= k < old(self).queues().len() implies #[trigger] self.queues()[k]
            == push_bounded(old(self).queues()[k], payload@, old(self).capacity()) by {
            assert(queue_view(self.subscribers@[k].queue@) == push_bounded(
                queue_view(old(self).subscribers@[k].queue@),
                payload@,
                self.capacity as nat,
            ));
        }
        n
    }

    /// Takes the oldest payload out of a subscriber's queue. `None`, with
    /// nothing changed, when the queue is empty or nobody has this number.
    pub fn recv(&mut self, id: u64) -> (r: Option<Vec<u8>>)
        requires
            old(self).wf(),
        ensures
            final(self).wf(),
            final(self).capacity() == old(self).capacity(),
            final(self).next_id() == old(self).next_id(),
            final(self).ids() == old(self).ids(),
            match position_of(old(self).ids(), id) {
                Some(i) => if old(self).queues()[i].len() > 0 {
                    &&& r matches Some(p)
                    &&& p@ == old(self).queues()[i][0]
                    &&& final(self).queues() == old(self).queues().update(
                        i,
                        old(self).queues()[i].drop_first(),
                    )
                } else {
                    &&& r is None
                    &&& final(self).queues() == old(self).queues()
                },
                None => {
                    &&& r is None
                    &&& final(self).queues() == old(self).queues()
                },
            },
    {
        match self.find(id) {
            Some(i) => {
                if self.subscribers[i].queue.len() == 0 {
                    return None;
                }
                let ghost queue = self.subscribers@[i as int].queue@;
                let p = self.subscribers[i].queue.remove(0);
                assert(queue_view(self.subscribers@[i as int].queue@) =~= queue_view(
                    queue,
                ).drop_first());
                assert(self.queues() =~= old(self).queues().update(
                    i as int,
                    old(self).queues()[i as int].drop_first(),
                ));
                Some(p)
            },
            None => None,
        }
    }

    /// How many payloads wait in a subscriber's queue; `None` when nobody
    /// has this number.
    pub fn pending(&self, id: u64) -> (r: Option<usize>)
        requires
            self.wf(),
        ensures
            match position_of(self.ids(), id) {
                Some(i) => r == Some(self.queues()[i].len() as usize),
                None => r is None,
            },
    {
        match self.find(id) {
            Some(i) => Some(self.subscribers[i].queue.len()),
            None => None,
        }
    }
}

/// Order of arrival is order of delivery: after two payloads arrived one
/// behind the other at a queue that holds at least two, they stand last in
/// it, the first before the second.
pub proof fn lemma_arrival_order_is_kept(
    queue: Seq<Seq<u8>>,
    first: Seq<u8>,
    second: Seq<u8>,
    capacity: nat,
)
    requires
        capacity >= 2,
        queue.len() <= capacity,
    ensures
        ({
            let after = push_bounded(push_bounded(queue, first, capacity), second, capacity);
            &&& 2 <= after.len() <= capacity
            &&& after[after.len() - 2] == first
            &&& after[after.len() - 1] == second
        }),
{
}

/// A queue within its bound loses nothing and keeps its order when a payload
/// arrives; a full one loses exactly its oldest payload.
pub proof fn lemma_push_bounded(queue: Seq<Seq<u8>>, payload: Seq<u8>, capacity: nat)
    requires
        capacity >= 1,
        queue.len() <= capacity,
    ensures
        push_bounded(queue, payload, capacity).len() <= capacity,
        push_bounded(queue, payload, capacity).last() == payload,
        queue.len() < capacity ==> push_bounded(queue, payload, capacity) == queue.push(payload),
        queue.len() == capacity ==> push_bounded(queue, payload, capacity).drop_last()
            == queue.drop_first(),
{
}

} // verus!

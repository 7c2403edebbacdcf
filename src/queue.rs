use crate::spray::{EntryView, WeedQueueMessage};
use priority_queue::DoublePriorityQueue;
use std::collections::HashMap;
use vstd::prelude::*;

verus! {

broadcast use vstd::std_specs::hash::group_hash_axioms;

#[verifier::external_type_specification]
#[verifier::external_body]
#[verifier::reject_recursive_types(I)]
#[verifier::reject_recursive_types(P)]
#[verifier::reject_recursive_types(H)]
pub struct ExDoublePriorityQueue<I, P, H>(DoublePriorityQueue<I, P, H>);

/// What a priority queue of entry identifiers holds: each identifier with its priority
/// (the entry's fire time).
/// The priority queue behind the spray queue: entry identifiers by fire time.
pub type FireQueue = DoublePriorityQueue<u64, i64>;

pub uninterp spec fn fire_order(q: FireQueue) -> Map<u64, i64>;

/// Relies on `DoublePriorityQueue::new`: a new queue holds nothing.
#[verifier::external_body]
fn order_new() -> (r: FireQueue)
    ensures
        fire_order(r).dom() == Set::<u64>::empty(),
{
    DoublePriorityQueue::new()
}

/// Relies on `DoublePriorityQueue::push`: the item is inserted with the priority, or its
/// priority is replaced when it is already there.
#[verifier::external_body]
fn order_push(q: &mut FireQueue, id: u64, time: i64)
    ensures
        fire_order(*final(q)) == fire_order(*old(q)).insert(id, time),
{
    q.push(id, time);
}

/// Relies on `DoublePriorityQueue::peek_min`: an item of lowest priority, with that
/// priority, or nothing when the queue is empty.
#[verifier::external_body]
fn order_peek_min(q: &FireQueue) -> (r: Option<(u64, i64)>)
    ensures
        match r {
            None => fire_order(*q).dom() == Set::<u64>::empty(),
            Some((id, time)) => {
                &&& fire_order(*q).contains_key(id)
                &&& fire_order(*q)[id] == time
                &&& forall|k: u64| #[trigger]
                    fire_order(*q).contains_key(k) ==> time <= fire_order(*q)[k]
            },
        },
{
    q.peek_min().map(|(id, time)| (*id, *time))
}

/// Relies on `DoublePriorityQueue::remove`: the item leaves the queue, whatever its place.
#[verifier::external_body]
fn order_remove(q: &mut FireQueue, id: u64)
    ensures
        fire_order(*final(q)) == fire_order(*old(q)).remove(id),
{
    q.remove(&id);
}

/// `id` names an entry of `m` with the earliest fire time.
pub open spec fn is_earliest(m: Map<u64, EntryView>, id: u64) -> bool {
    &&& m.contains_key(id)
    &&& forall|k: u64| #[trigger]
        m.contains_key(k) ==> m[id].time_to_fire <= m[k].time_to_fire
}

/// The spray queue: entries keyed by an identifier given on insertion, ordered by fire
/// time. Equal entries are kept apart.
pub struct SprayQueue {
    order: FireQueue,
    entries: HashMap<u64, WeedQueueMessage>,
    next_id: u64,
}

impl SprayQueue {
    /// Each entry with the identifier it was given.
    pub closed spec fn view(&self) -> Map<u64, EntryView> {
        self.entries@.map_values(|e: WeedQueueMessage| e@)
    }

    /// The identifier that the next insertion receives.
    pub closed spec fn next_id(&self) -> nat {
        self.next_id as nat
    }

    pub closed spec fn wf(&self) -> bool {
        &&& fire_order(self.order).dom() == self.entries@.dom()
        &&& forall|id: u64| #[trigger]
            self.entries@.contains_key(id) ==> fire_order(self.order)[id]
                == self.entries@[id].time_to_fire
        &&& forall|id: u64| #[trigger] self.entries@.contains_key(id) ==> id < self.next_id
    }

    /// The queue holds finitely many entries, and every identifier in it was given before
    /// the next one.
    pub proof fn lemma_ids_below_next(&self)
        requires
            self.wf(),
        ensures
            self@.dom().finite(),
            forall|id: u64| #[trigger] self@.contains_key(id) ==> id < self.next_id(),
    {
        assert(self@.dom() == self.entries@.dom());
    }

    pub fn new() -> (r: Self)
        ensures
            r.wf(),
            r@ == Map::<u64, EntryView>::empty(),
            r.next_id() == 0,
    {
        let r = SprayQueue { order: order_new(), entries: HashMap::new(), next_id: 0 };
        assert(r.entries@.dom() =~= fire_order(r.order).dom());
        assert(r@ =~= Map::<u64, EntryView>::empty());
        r
    }

    /// The number of entries.
    pub fn len(&self) -> (r: usize)
        requires
            self.wf(),
        ensures
            r == self@.len(),
    {
        broadcast use vstd::std_specs::hash::axiom_spec_hash_map_len;

        assert(self@.dom() =~= self.entries@.dom());
        self.entries.len()
    }

    /// Whether `count` more entries can be given identifiers.
    pub fn has_room_for(&self, count: usize) -> (r: bool)
        ensures
            r == (self.next_id() + count <= u64::MAX),
    {
        count as u64 <= u64::MAX - self.next_id
    }

    /// Inserts an entry under the next identifier.
    pub fn push(&mut self, entry: WeedQueueMessage)
        requires
            old(self).wf(),
            old(self).next_id() < u64::MAX,
        ensures
            final(self).wf(),
            final(self)@ == old(self)@.insert(old(self).next_id() as u64, entry@),
            final(self).next_id() == old(self).next_id() + 1,
            !old(self)@.contains_key(old(self).next_id() as u64),
    {
        let id = self.next_id;
        let time = entry.time_to_fire;
        let ghost old_entries = self.entries@;
        assert(!old_entries.contains_key(id));
        order_push(&mut self.order, id, time);
        self.entries.insert(id, entry);
        self.next_id = id + 1;
        assert(fire_order(self.order).dom() =~= self.entries@.dom());
        assert(self@ =~= old(self)@.insert(id, entry@));
    }

    /// The identifier of an entry with the earliest fire time, or nothing when the queue
    /// is empty. Entries with equal fire times come in no promised order.
    pub fn peek_min(&self) -> (r: Option<u64>)
        requires
            self.wf(),
        ensures
            match r {
                None => self@ == Map::<u64, EntryView>::empty(),
                Some(id) => is_earliest(self@, id),
            },
    {
        match order_peek_min(&self.order) {
            None => {
                assert(self.entries@.dom() =~= Set::<u64>::empty());
                assert(self@ =~= Map::<u64, EntryView>::empty());
                None
            },
            Some((id, _)) => {
                assert forall|k: u64| #[trigger] self@.contains_key(k) implies self@[id].time_to_fire
                    <= self@[k].time_to_fire by {
                    assert(fire_order(self.order).contains_key(k));
                }
                Some(id)
            },
        }
    }

    /// The entry stored under `id`.
    pub fn get(&self, id: u64) -> (r: &WeedQueueMessage)
        requires
            self.wf(),
            self@.contains_key(id),
        ensures
            r@ == self@[id],
    {
        self.entries.get(&id).unwrap()
    }

    /// Removes the entry stored under `id`, if there is one.
    pub fn remove(&mut self, id: u64)
        requires
            old(self).wf(),
        ensures
            final(self).wf(),
            final(self)@ == old(self)@.remove(id),
            final(self).next_id() == old(self).next_id(),
    {
        order_remove(&mut self.order, id);
        self.entries.remove(&id);
        assert(fire_order(self.order).dom() =~= self.entries@.dom());
        assert(self@ =~= old(self)@.remove(id));
    }
}

} // verus!

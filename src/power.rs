use crate::pdm::{
    actuations_view,
    heartbeat,
    heartbeat_actuations,
    switch_actuations,
    switch_channels,
    Actuation,
    ActuationView,
};
use crate::queue::{is_earliest, SprayQueue};
use crate::spray::{
    all_wired,
    wired_channel,
    channel_map_view,
    first_unwired,
    plan_weed_message,
    weed_message_outcome,
    EntryView,
    SprayError,
    WeedMessage,
    WeedQueueMessage,
};
use std::collections::HashMap;
use vstd::prelude::*;

verus! {

broadcast use vstd::std_specs::hash::group_hash_axioms;

/// How close to its fire time, in microseconds, an entry must be to fire.
pub const SPRAY_BOUND_US: i64 = 5;

/// Longest time without a command to the PDMs before a keep-alive is sent, in
/// microseconds.
pub const HEARTBEAT_US: i64 = 500_000;

/// Configuration of the spray component of one crop bed.
#[derive(Debug, PartialEq, Eq)]
pub struct CropBedPowerConfig {
    /// Crop bed the component is attached to.
    pub crop_bed_id: u8,
    /// CAN interface name, such as `can0`.
    pub canbus_id: String,
    /// Local port on which weed messages arrive.
    pub port: i32,
    /// Configuration file of each PDM, by its index in the bed.
    pub pdm_config_files: HashMap<u8, String>,
    /// Physical channel to (wired channel, PDM index), when the harness is not wired
    /// one to one.
    pub channel_map: Option<HashMap<u8, (u8, u8)>>,
}

impl CropBedPowerConfig {
    /// A configuration with no PDM configuration files yet.
    pub fn new(
        crop_bed_id: u8,
        canbus_id: String,
        port: i32,
        channel_map: Option<HashMap<u8, (u8, u8)>>,
    ) -> (r: Self)
        ensures
            r.crop_bed_id == crop_bed_id,
            r.canbus_id@ == canbus_id@,
            r.port == port,
            r.pdm_config_files@ == Map::<u8, String>::empty(),
            r.channel_map == channel_map,
    {
        CropBedPowerConfig {
            crop_bed_id,
            canbus_id,
            port,
            pdm_config_files: HashMap::new(),
            channel_map,
        }
    }

    /// Adds (or replaces) the configuration file of the PDM at index `pdm_id`.
    pub fn add_pdm_config_file(self, filepath: String, pdm_id: u8) -> (r: Self)
        ensures
            r.crop_bed_id == self.crop_bed_id,
            r.canbus_id == self.canbus_id,
            r.port == self.port,
            r.pdm_config_files@ == self.pdm_config_files@.insert(pdm_id, filepath),
            r.channel_map == self.channel_map,
    {
        let mut r = self;
        r.pdm_config_files.insert(pdm_id, filepath);
        r
    }
}

/// `head` is an entry that the firing step may look at: one with the earliest fire time,
/// or none when the queue is empty.
pub open spec fn valid_head(q: Map<u64, EntryView>, head: Option<u64>) -> bool {
    match head {
        None => q.dom() == Set::<u64>::empty(),
        Some(id) => is_earliest(q, id),
    }
}

/// The entry is due: it fires less than `SPRAY_BOUND_US` from now, and not in the past.
pub open spec fn due(e: EntryView, now: int) -> bool {
    now <= e.time_to_fire < now + SPRAY_BOUND_US
}

pub open spec fn expired(e: EntryView, now: int) -> bool {
    e.time_to_fire < now
}

/// The queue after the head has been looked at: a due or expired head leaves it.
pub open spec fn queue_after(q: Map<u64, EntryView>, head: Option<u64>, now: int) -> Map<
    u64,
    EntryView,
> {
    match head {
        None => q,
        Some(id) => if expired(q[id], now) || due(q[id], now) {
            q.remove(id)
        } else {
            q
        },
    }
}

/// The head fires now.
pub open spec fn fires(q: Map<u64, EntryView>, head: Option<u64>, now: int) -> bool {
    match head {
        None => false,
        Some(id) => due(q[id], now),
    }
}

pub open spec fn heartbeat_due(last_fire: int, now: int) -> bool {
    now - last_fire > HEARTBEAT_US
}

/// One step of the firing loop at time `now`, from queue `q` and last command time
/// `last` to queue `q2`, last command time `last2`, and the commands `acts` sent.
pub open spec fn fire_step(
    q: Map<u64, EntryView>,
    last: int,
    now: int,
    q2: Map<u64, EntryView>,
    last2: int,
    acts: Seq<ActuationView>,
) -> bool {
    exists|head: Option<u64>|
        {
            &&& #[trigger] valid_head(q, head)
            &&& q2 == queue_after(q, head, now)
            &&& if fires(q, head, now) {
                &&& acts == switch_actuations(q[head->Some_0].channels, q[head->Some_0].is_on)
                &&& last2 == now
            } else if heartbeat_due(last, now) {
                &&& acts == heartbeat_actuations()
                &&& last2 == now
            } else {
                &&& acts == Seq::<ActuationView>::empty()
                &&& last2 == last
            }
        }
}

/// `q2` is `q` with the entries `p` added under the identifiers `first`, `first + 1`, ...
pub open spec fn with_entries(q: Map<u64, EntryView>, first: nat, p: Seq<EntryView>) -> Map<
    u64,
    EntryView,
> {
    q.union_prefer_right(
        Map::new(|k: u64| first <= k < first + p.len(), |k: u64| p[k - first]),
    )
}

/// Adding entries under fresh identifiers adds exactly that many entries.
pub proof fn lemma_with_entries_len(q: Map<u64, EntryView>, first: nat, p: Seq<EntryView>)
    requires
        q.dom().finite(),
        forall|id: u64| #[trigger] q.contains_key(id) ==> id < first,
        first + p.len() <= u64::MAX + 1,
    ensures
        with_entries(q, first, p).dom().finite(),
        with_entries(q, first, p).len() == q.len() + p.len(),
    decreases p.len(),
{
    if p.len() == 0 {
        assert(with_entries(q, first, p) =~= q);
    } else {
        let p0 = p.drop_last();
        lemma_with_entries_len(q, first, p0);
        let k = (first + p0.len()) as u64;
        assert(!with_entries(q, first, p0).contains_key(k));
        assert(with_entries(q, first, p) =~= with_entries(q, first, p0).insert(k, p.last()));
    }
}

/// What receiving `message` at `now` does to a queue `q` whose next identifier is `next`:
/// the new queue `q2`, its next identifier `next2`, and the result `r`.
pub open spec fn enqueue_step(
    q: Map<u64, EntryView>,
    next: nat,
    message: WeedMessage,
    now: int,
    map: Option<Map<u8, (u8, u8)>>,
    q2: Map<u64, EntryView>,
    next2: nat,
    r: Result<usize, SprayError>,
) -> bool {
    let outcome = weed_message_outcome(
        message.channels_to_open@,
        message.start_spray_time as int,
        message.end_spray_time as int,
        now,
        map,
    );
    match r {
        Ok(n) => {
            &&& outcome is Some
            &&& n == outcome->Some_0.len()
            &&& q2 == with_entries(q, next, outcome->Some_0)
            &&& next2 == next + n
            &&& next2 <= u64::MAX
        },
        Err(e) => {
            &&& q2 == q
            &&& next2 == next
            &&& (e == SprayError::QueueFull) == (outcome is Some)
            &&& e == SprayError::QueueFull ==> next + outcome->Some_0.len() > u64::MAX
            &&& e == SprayError::Stale <==> message.start_spray_time <= now
            &&& (message.start_spray_time > now && e != SprayError::QueueFull) ==> exists|i: int|
                first_unwired(message.channels_to_open@, map, i) && e
                    == SprayError::UnknownChannel(message.channels_to_open@[i])
        },
    }
}

/// Receiving the same weed message twice at the same time puts its entries in the queue
/// twice, each copy under identifiers of its own: the queue grows by twice the entries of
/// one message, and nothing is merged.
pub proof fn lemma_same_message_twice(
    q: Map<u64, EntryView>,
    next: nat,
    message: WeedMessage,
    now: int,
    map: Option<Map<u8, (u8, u8)>>,
    q1: Map<u64, EntryView>,
    next1: nat,
    n1: usize,
    q2: Map<u64, EntryView>,
    next2: nat,
    n2: usize,
)
    requires
        q.dom().finite(),
        forall|id: u64| #[trigger] q.contains_key(id) ==> id < next,
        enqueue_step(q, next, message, now, map, q1, next1, Ok(n1)),
        enqueue_step(q1, next1, message, now, map, q2, next2, Ok(n2)),
    ensures
        n2 == n1,
        q2.len() == q.len() + 2 * n1,
        ({
            let p = weed_message_outcome(
                message.channels_to_open@,
                message.start_spray_time as int,
                message.end_spray_time as int,
                now,
                map,
            )->Some_0;
            &&& q2 == with_entries(q, next, p + p)
            &&& forall|k: int|
                0 <= k < p.len() ==> {
                    &&& q2.contains_key((next + k) as u64)
                    &&& q2.contains_key((next + p.len() + k) as u64)
                    &&& q2[(next + k) as u64] == #[trigger] p[k]
                    &&& q2[(next + p.len() + k) as u64] == p[k]
                }
        }),
{
    let p = weed_message_outcome(
        message.channels_to_open@,
        message.start_spray_time as int,
        message.end_spray_time as int,
        now,
        map,
    )->Some_0;
    assert(q2 =~= with_entries(q, next, p + p));
    lemma_with_entries_len(q, next, p + p);
}

/// A spray received before it starts, on channels that all have a wired channel, with
/// identifiers left for all its entries, is queued in full: each planned entry under a
/// fresh identifier, and the queue grows by exactly that many entries.
pub proof fn lemma_spray_enqueued(
    q: Map<u64, EntryView>,
    next: nat,
    message: WeedMessage,
    now: int,
    map: Option<Map<u8, (u8, u8)>>,
    q2: Map<u64, EntryView>,
    next2: nat,
    r: Result<usize, SprayError>,
)
    requires
        q.dom().finite(),
        forall|id: u64| #[trigger] q.contains_key(id) ==> id < next,
        message.start_spray_time > now,
        all_wired(message.channels_to_open@, map),
        next + weed_message_outcome(
            message.channels_to_open@,
            message.start_spray_time as int,
            message.end_spray_time as int,
            now,
            map,
        )->Some_0.len() <= u64::MAX,
        enqueue_step(q, next, message, now, map, q2, next2, r),
    ensures
        ({
            let p = weed_message_outcome(
                message.channels_to_open@,
                message.start_spray_time as int,
                message.end_spray_time as int,
                now,
                map,
            )->Some_0;
            &&& r == Ok::<usize, SprayError>(p.len() as usize)
            &&& q2 == with_entries(q, next, p)
            &&& q2.len() == q.len() + p.len()
        }),
{
    let p = weed_message_outcome(
        message.channels_to_open@,
        message.start_spray_time as int,
        message.end_spray_time as int,
        now,
        map,
    )->Some_0;
    if let Err(e) = r {
        if e != SprayError::QueueFull {
            let i = choose|i: int|
                first_unwired(message.channels_to_open@, map, i) && e
                    == SprayError::UnknownChannel(message.channels_to_open@[i]);
            assert(wired_channel(message.channels_to_open@[i], map) is Some);
        }
    }
    lemma_with_entries_len(q, next, p);
}

/// Two copies of an entry, queued under identifiers `a` and `b` and due at two successive
/// firing steps, fire once each: each step sends the entry's commands and takes one copy
/// out, and after both no copy is left. No other entry may share or precede their fire
/// time, since entries with equal fire times fire in no promised order.
pub proof fn lemma_copies_fire_separately(
    q: Map<u64, EntryView>,
    a: u64,
    b: u64,
    last: int,
    now1: int,
    q1: Map<u64, EntryView>,
    last1: int,
    acts1: Seq<ActuationView>,
    now2: int,
    q2: Map<u64, EntryView>,
    last2: int,
    acts2: Seq<ActuationView>,
)
    requires
        a != b,
        q.contains_key(a),
        q.contains_key(b),
        q[a] == q[b],
        forall|k: u64|
            #[trigger] q.contains_key(k) && k != a && k != b ==> q[k].time_to_fire
                > q[a].time_to_fire,
        due(q[a], now1),
        due(q[a], now2),
        fire_step(q, last, now1, q1, last1, acts1),
        fire_step(q1, last1, now2, q2, last2, acts2),
    ensures
        acts1 == switch_actuations(q[a].channels, q[a].is_on),
        acts2 == switch_actuations(q[a].channels, q[a].is_on),
        q2 == q.remove(a).remove(b),
{
    let h1 = choose|head: Option<u64>|
        {
            &&& #[trigger] valid_head(q, head)
            &&& q1 == queue_after(q, head, now1)
            &&& if fires(q, head, now1) {
                &&& acts1 == switch_actuations(q[head->Some_0].channels, q[head->Some_0].is_on)
                &&& last1 == now1
            } else if heartbeat_due(last, now1) {
                &&& acts1 == heartbeat_actuations()
                &&& last1 == now1
            } else {
                &&& acts1 == Seq::<ActuationView>::empty()
                &&& last1 == last
            }
        };
    assert(q.dom().contains(a));
    let i1 = h1->Some_0;
    assert(q[i1].time_to_fire <= q[a].time_to_fire);
    assert(i1 == a || i1 == b);
    let other = if i1 == a { b } else { a };
    assert(q1 == q.remove(i1));
    let h2 = choose|head: Option<u64>|
        {
            &&& #[trigger] valid_head(q1, head)
            &&& q2 == queue_after(q1, head, now2)
            &&& if fires(q1, head, now2) {
                &&& acts2 == switch_actuations(q1[head->Some_0].channels, q1[head->Some_0].is_on)
                &&& last2 == now2
            } else if heartbeat_due(last1, now2) {
                &&& acts2 == heartbeat_actuations()
                &&& last2 == now2
            } else {
                &&& acts2 == Seq::<ActuationView>::empty()
                &&& last2 == last1
            }
        };
    assert(q1.contains_key(other));
    assert(q1.dom().contains(other));
    let i2 = h2->Some_0;
    assert(q1[i2].time_to_fire <= q1[other].time_to_fire);
    assert(i2 == other);
    assert(q2 =~= q.remove(a).remove(b));
}

/// The spray scheduling state of one crop bed: the queue of pending switches, the
/// channel wiring, and when the PDMs were last sent a command.
pub struct SprayScheduler {
    pub queue: SprayQueue,
    pub channel_map: Option<HashMap<u8, (u8, u8)>>,
    /// Time of the last command sent to the PDMs, in microseconds since the Unix epoch.
    pub last_fire: i64,
}

/// Relies on `chrono::Utc::now`: the current time in microseconds since the Unix epoch.
#[verifier::external_body]
fn utc_now_micros() -> (r: i64) {
    chrono::Utc::now().timestamp_micros()
}

impl SprayScheduler {
    pub open spec fn wf(&self) -> bool {
        self.queue.wf()
    }

    /// An empty scheduler whose last command is taken to be at `now`.
    pub fn new(channel_map: Option<HashMap<u8, (u8, u8)>>, now: i64) -> (r: Self)
        ensures
            r.wf(),
            r.queue@ == Map::<u64, EntryView>::empty(),
            r.queue.next_id() == 0,
            r.channel_map == channel_map,
            r.last_fire == now,
    {
        SprayScheduler { queue: SprayQueue::new(), channel_map, last_fire: now }
    }

    /// Puts the entries of a weed message received at `now` in the queue.
    ///
    /// A spray that does not start after `now` is dropped with `Stale`. Otherwise its
    /// planned entries are added, each under a fresh identifier, and their number is
    /// returned; when the identifiers would run out nothing is added (`QueueFull`). A raw
    /// channel without a wired channel is a wiring fault that callers rule out first
    /// (see `remap_channels`).
    pub fn add_weed_message(&mut self, message: &WeedMessage, now: i64) -> (r: Result<
        usize,
        SprayError,
    >)
        requires
            old(self).wf(),
            message.start_spray_time > now ==> all_wired(
                message.channels_to_open@,
                channel_map_view(old(self).channel_map),
            ),
        ensures
            final(self).wf(),
            final(self).channel_map == old(self).channel_map,
            final(self).last_fire == old(self).last_fire,
            message.start_spray_time <= now ==> r == Err::<usize, SprayError>(SprayError::Stale),
            enqueue_step(
                old(self).queue@,
                old(self).queue.next_id(),
                *message,
                now as int,
                channel_map_view(old(self).channel_map),
                final(self).queue@,
                final(self).queue.next_id(),
                r,
            ),
    {
        let mut entries = match plan_weed_message(message, now, &self.channel_map) {
            Ok(v) => v,
            Err(e) => return Err(e),
        };
        let n = entries.len();
        if !self.queue.has_room_for(n) {
            return Err(SprayError::QueueFull);
        }
        let ghost p = entries@.map_values(|e: WeedQueueMessage| e@);
        let ghost q0 = self.queue@;
        let ghost first = self.queue.next_id();
        proof {
            self.queue.lemma_ids_below_next();
        }
        let mut i: usize = 0;
        while i < n
            invariant
                self.wf(),
                i <= n,
                n == p.len(),
                entries@.len() == n - i,
                forall|k: int| 0 <= k < n - i ==> (#[trigger] entries@[k])@ == p[k + i],
                first + n <= u64::MAX,
                self.queue.next_id() == first + i,
                self.queue@ == with_entries(q0, first, p.subrange(0, i as int)),
                forall|id: u64| #[trigger] q0.contains_key(id) ==> id < first,
                self.channel_map == old(self).channel_map,
                self.last_fire == old(self).last_fire,
            decreases n - i,
        {
            let e = entries.remove(0);
            assert(e@ == p[i as int]);
            self.queue.push(e);
            i += 1;
            assert(self.queue@ =~= with_entries(q0, first, p.subrange(0, i as int)));
        }
        assert(p.subrange(0, n as int) =~= p);
        Ok(n)
    }

    /// One pass of the firing loop at time `now`.
    ///
    /// It looks at an entry with the earliest fire time: one already past is dropped; one
    /// due within `SPRAY_BOUND_US` is dropped and its channels are switched, and the
    /// time of the last command becomes `now`. When no entry fired and the PDMs have
    /// heard nothing for more than `HEARTBEAT_US`, a keep-alive goes to both PDMs and the
    /// time of the last command becomes `now`. The commands to send are returned.
    pub fn process_message_queue(&mut self, now: i64) -> (r: Vec<Actuation>)
        requires
            old(self).wf(),
        ensures
            final(self).wf(),
            final(self).channel_map == old(self).channel_map,
            final(self).queue.next_id() == old(self).queue.next_id(),
            fire_step(
                old(self).queue@,
                old(self).last_fire as int,
                now as int,
                final(self).queue@,
                final(self).last_fire as int,
                actuations_view(r@),
            ),
            now - final(self).last_fire <= HEARTBEAT_US,
            r@.len() > 0 ==> final(self).last_fire == now,
    {
        let ghost q0 = self.queue@;
        let head = self.queue.peek_min();
        let mut out: Vec<Actuation> = Vec::new();
        let mut fired = false;
        if let Some(id) = head {
            let entry = self.queue.get(id);
            if entry.time_to_fire < now {
                self.queue.remove(id);
            } else if (entry.time_to_fire as i128) - (now as i128) < SPRAY_BOUND_US as i128 {
                out = switch_channels(&entry.channels, entry.is_on);
                self.queue.remove(id);
                self.last_fire = now;
                fired = true;
            }
        }
        if !fired && (now as i128) - (self.last_fire as i128) > HEARTBEAT_US as i128 {
            out = heartbeat();
            self.last_fire = now;
        }
        proof {
            assert(valid_head(q0, head));
            assert(self.queue@ == queue_after(q0, head, now as int));
            assert(fired == fires(q0, head, now as int));
            if fired {
                let id = head->Some_0;
                assert(actuations_view(out@) == switch_actuations(q0[id].channels, q0[id].is_on));
            }
            assert(self.queue@ == queue_after(q0, head, now as int) && if fires(q0, head, now as int) {
                &&& actuations_view(out@) == switch_actuations(q0[head->Some_0].channels, q0[head->Some_0].is_on)
                &&& self.last_fire == now
            } else if heartbeat_due(old(self).last_fire as int, now as int) {
                &&& actuations_view(out@) == heartbeat_actuations()
                &&& self.last_fire == now
            } else {
                &&& actuations_view(out@) == Seq::<ActuationView>::empty()
                &&& self.last_fire == old(self).last_fire
            });
        }
        out
    }

    /// Puts the entries of a weed message in the queue, judged against the current time
    /// (see `add_weed_message`).
    pub fn add_weed_message_now(&mut self, message: &WeedMessage) -> (r: Result<usize, SprayError>)
        requires
            old(self).wf(),
            all_wired(message.channels_to_open@, channel_map_view(old(self).channel_map)),
        ensures
            final(self).wf(),
            final(self).channel_map == old(self).channel_map,
            final(self).last_fire == old(self).last_fire,
            exists|now: i64|
                enqueue_step(
                    old(self).queue@,
                    old(self).queue.next_id(),
                    *message,
                    now as int,
                    channel_map_view(old(self).channel_map),
                    final(self).queue@,
                    final(self).queue.next_id(),
                    r,
                ),
    {
        let now = utc_now_micros();
        self.add_weed_message(message, now)
    }

    /// One pass of the firing loop at the current time (see `process_message_queue`).
    pub fn process_message_queue_now(&mut self) -> (r: Vec<Actuation>)
        requires
            old(self).wf(),
        ensures
            final(self).wf(),
            final(self).channel_map == old(self).channel_map,
            exists|now: int|
                fire_step(
                    old(self).queue@,
                    old(self).last_fire as int,
                    now,
                    final(self).queue@,
                    final(self).last_fire as int,
                    actuations_view(r@),
                ),
    {
        let now = utc_now_micros();
        self.process_message_queue(now)
    }
}

} // verus!

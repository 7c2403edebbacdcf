use std::collections::HashMap;
use vstd::arithmetic::div_mod::{lemma_fundamental_div_mod, lemma_fundamental_div_mod_converse, lemma_mod_pos_bound};
use vstd::prelude::*;

verus! {

broadcast use vstd::std_specs::hash::group_hash_axioms;

/// Spacing of the re-assert pulses that keep a long spray energised, in microseconds.
pub const REPEAT_INTERVAL_US: i64 = 100_000;

/// How long a PDM holds its outputs without CAN traffic, in microseconds. Sprays up to
/// this long need no re-assert pulses.
pub const PDM_HOLD_US: i64 = 1_000_000;

/// A spray request from the perception service. Channels are 0-indexed; times are
/// microseconds since the Unix epoch, UTC.
#[derive(Debug, PartialEq, Eq)]
pub struct WeedMessage {
    pub channels_to_open: Vec<u8>,
    pub start_spray_time: i64,
    pub end_spray_time: i64,
}

/// One scheduled switch of a set of channels, on or off, at `time_to_fire`.
#[derive(Debug, PartialEq, Eq, Hash)]
pub struct WeedQueueMessage {
    /// Channels to actuate, after wiring has been applied (`1..=24`).
    pub channels: Vec<u8>,
    /// When the action should take place (microseconds since the Unix epoch, UTC).
    pub time_to_fire: i64,
    /// The channels are switched on (duty 100) rather than off (duty 0).
    pub is_on: bool,
    /// Start of the spray window this entry belongs to.
    pub original_spray_starts: i64,
    /// End of the spray window this entry belongs to.
    pub original_spray_ending: i64,
}

/// The mathematical value of a queue entry.
pub struct EntryView {
    pub channels: Seq<u8>,
    pub time_to_fire: int,
    pub is_on: bool,
    pub starts: int,
    pub ends: int,
}

impl View for WeedQueueMessage {
    type V = EntryView;

    open spec fn view(&self) -> EntryView {
        EntryView {
            channels: self.channels@,
            time_to_fire: self.time_to_fire as int,
            is_on: self.is_on,
            starts: self.original_spray_starts as int,
            ends: self.original_spray_ending as int,
        }
    }
}

/// Why a weed message puts nothing in the queue.
#[derive(Debug, Clone, Copy, PartialEq, Eq, Structural)]
pub enum SprayError {
    /// The spray starts at or before the current time.
    Stale,
    /// This raw (0-indexed) channel has no wired channel: it is missing from the channel
    /// map, or has no 1-indexed number in a byte.
    UnknownChannel(u8),
    /// The queue has run out of entry identifiers.
    QueueFull,
}

pub open spec fn channel_map_view(map: Option<HashMap<u8, (u8, u8)>>) -> Option<
    Map<u8, (u8, u8)>,
> {
    match map {
        Some(m) => Some(m@),
        None => None,
    }
}

/// The wired channel of a raw 0-indexed channel: its 1-indexed number, translated through
/// the channel map when there is one.
pub open spec fn wired_channel(c: u8, map: Option<Map<u8, (u8, u8)>>) -> Option<u8> {
    if c == 255 {
        None
    } else {
        let physical = (c + 1) as u8;
        match map {
            None => Some(physical),
            Some(m) => if m.contains_key(physical) {
                Some(m[physical].0)
            } else {
                None
            },
        }
    }
}

pub open spec fn all_wired(raw: Seq<u8>, map: Option<Map<u8, (u8, u8)>>) -> bool {
    forall|i: int| 0 <= i < raw.len() ==> (#[trigger] wired_channel(raw[i], map)) is Some
}

pub open spec fn wired_channels(raw: Seq<u8>, map: Option<Map<u8, (u8, u8)>>) -> Seq<u8> {
    raw.map_values(|c: u8| wired_channel(c, map)->Some_0)
}

/// `raw[i]` is the first channel of `raw` that has no wired channel.
pub open spec fn first_unwired(raw: Seq<u8>, map: Option<Map<u8, (u8, u8)>>, i: int) -> bool {
    &&& 0 <= i < raw.len()
    &&& wired_channel(raw[i], map) is None
    &&& forall|j: int| 0 <= j < i ==> (#[trigger] wired_channel(raw[j], map)) is Some
}

pub open spec fn entry(channels: Seq<u8>, t: int, on: bool, start: int, end: int) -> EntryView {
    EntryView { channels, time_to_fire: t, is_on: on, starts: start, ends: end }
}

/// Number of re-assert pulses of a spray longer than the PDM hold time: one every
/// 100 ms after the start for as long as more than 100 ms of the spray remains.
pub open spec fn pulse_count(start: int, end: int) -> int {
    (end - start - 1) / (REPEAT_INTERVAL_US as int)
}

/// The queue entries for a spray of `channels` from `start` to `end`.
pub open spec fn planned_entries(channels: Seq<u8>, start: int, end: int) -> Seq<EntryView> {
    if end - start <= PDM_HOLD_US {
        seq![entry(channels, start, true, start, end), entry(channels, end, false, start, end)]
    } else {
        Seq::new(
            pulse_count(start, end) as nat,
            |k: int| entry(channels, start + (k + 1) * REPEAT_INTERVAL_US, true, start, end),
        ).push(entry(channels, end, false, start, end))
    }
}

pub open spec fn entries_view(v: Seq<WeedQueueMessage>) -> Seq<EntryView> {
    v.map_values(|e: WeedQueueMessage| e@)
}

/// What a weed message received at `now` puts in the queue, or why it puts nothing.
pub open spec fn weed_message_outcome(
    raw: Seq<u8>,
    start: int,
    end: int,
    now: int,
    map: Option<Map<u8, (u8, u8)>>,
) -> Option<Seq<EntryView>> {
    if start <= now || !all_wired(raw, map) {
        None
    } else {
        Some(planned_entries(wired_channels(raw, map), start, end))
    }
}

fn copy_channels(v: &Vec<u8>) -> (r: Vec<u8>)
    ensures
        r@ == v@,
{
    let mut out: Vec<u8> = Vec::new();
    let mut i: usize = 0;
    while i < v.len()
        invariant
            i <= v.len(),
            out@ == v@.subrange(0, i as int),
        decreases v.len() - i,
    {
        out.push(v[i]);
        i += 1;
        assert(out@ =~= v@.subrange(0, i as int));
    }
    assert(v@.subrange(0, i as int) =~= v@);
    out
}

/// Translates raw 0-indexed channels into wired channels: add one, then look the result up
/// in the channel map when there is one.
pub fn remap_channels(raw: &Vec<u8>, channel_map: &Option<HashMap<u8, (u8, u8)>>) -> (r: Result<
    Vec<u8>,
    SprayError,
>)
    ensures
        r is Ok <==> all_wired(raw@, channel_map_view(*channel_map)),
        match r {
            Ok(v) => v@ == wired_channels(raw@, channel_map_view(*channel_map)),
            Err(e) => exists|i: int|
                first_unwired(raw@, channel_map_view(*channel_map), i) && e
                    == SprayError::UnknownChannel(raw@[i]),
        },
{
    let ghost mv = channel_map_view(*channel_map);
    let mut out: Vec<u8> = Vec::new();
    let mut i: usize = 0;
    while i < raw.len()
        invariant
            i <= raw.len(),
            mv == channel_map_view(*channel_map),
            forall|j: int| 0 <= j < i ==> (#[trigger] wired_channel(raw@[j], mv)) is Some,
            out@ == wired_channels(raw@.subrange(0, i as int), mv),
        decreases raw.len() - i,
    {
        let c = raw[i];
        if c == 255 {
            assert(first_unwired(raw@, mv, i as int));
            return Err(SprayError::UnknownChannel(c));
        }
        let physical = c + 1;
        let wired = match channel_map {
            None => physical,
            Some(m) => match m.get(&physical) {
                Some(pair) => pair.0,
                None => {
                    assert(first_unwired(raw@, mv, i as int));
                    return Err(SprayError::UnknownChannel(c));
                },
            },
        };
        out.push(wired);
        i += 1;
        assert(out@ =~= wired_channels(raw@.subrange(0, i as int), mv));
    }
    assert(raw@.subrange(0, i as int) =~= raw@);
    Ok(out)
}

fn make_entry(channels: &Vec<u8>, t: i64, on: bool, start: i64, end: i64) -> (r: WeedQueueMessage)
    ensures
        r@ == entry(channels@, t as int, on, start as int, end as int),
{
    WeedQueueMessage {
        channels: copy_channels(channels),
        time_to_fire: t,
        is_on: on,
        original_spray_starts: start,
        original_spray_ending: end,
    }
}

/// The entries for a spray of already wired `channels` from `start` to `end`: an "on" at
/// the start and an "off" at the end when the spray lasts at most a second; otherwise
/// "on" pulses every 100 ms after the start while more than 100 ms remains, then an
/// "off" at the end.
pub fn plan_spray(channels: &Vec<u8>, start: i64, end: i64) -> (r: Vec<WeedQueueMessage>)
    ensures
        entries_view(r@) == planned_entries(channels@, start as int, end as int),
{
    let delta: i128 = end as i128 - start as i128;
    let mut out: Vec<WeedQueueMessage> = Vec::new();
    if delta <= PDM_HOLD_US as i128 {
        out.push(make_entry(channels, start, true, start, end));
        out.push(make_entry(channels, end, false, start, end));
        assert(entries_view(out@) =~= planned_entries(channels@, start as int, end as int));
        return out;
    }
    let ghost r = REPEAT_INTERVAL_US as int;
    let mut t: i64 = start;
    let mut remaining: i128 = delta;
    let mut i: usize = 0;
    while remaining > REPEAT_INTERVAL_US as i128
        invariant
            delta == end - start,
            delta > PDM_HOLD_US,
            r == REPEAT_INTERVAL_US,
            remaining == delta - i * r,
            remaining > 0,
            t == start + i * r,
            i <= delta,
            out@.len() == i,
            forall|k: int|
                0 <= k < i ==> (#[trigger] out@[k])@ == entry(
                    channels@,
                    start + (k + 1) * REPEAT_INTERVAL_US,
                    true,
                    start as int,
                    end as int,
                ),
        decreases remaining,
    {
        let next = t + REPEAT_INTERVAL_US;
        out.push(make_entry(channels, next, true, start, end));
        t = next;
        remaining = remaining - REPEAT_INTERVAL_US as i128;
        i = out.len();
    }
    proof {
        lemma_fundamental_div_mod_converse(delta - 1, r, i as int, delta - 1 - i * r);
    }
    out.push(make_entry(channels, end, false, start, end));
    assert(entries_view(out@) =~= planned_entries(channels@, start as int, end as int));
    out
}

/// The entries that a weed message received at `now` puts in the queue: none, with
/// `Stale`, when the spray does not start after `now`; none, with the first raw channel
/// that has no wired channel, when there is such a channel; else the plan of the spray
/// on the wired channels.
pub fn plan_weed_message(
    message: &WeedMessage,
    now: i64,
    channel_map: &Option<HashMap<u8, (u8, u8)>>,
) -> (r: Result<Vec<WeedQueueMessage>, SprayError>)
    ensures
        message.start_spray_time <= now ==> r == Err::<Vec<WeedQueueMessage>, SprayError>(
            SprayError::Stale,
        ),
        match r {
            Ok(v) => weed_message_outcome(
                message.channels_to_open@,
                message.start_spray_time as int,
                message.end_spray_time as int,
                now as int,
                channel_map_view(*channel_map),
            ) == Some(entries_view(v@)),
            Err(e) => {
                &&& weed_message_outcome(
                    message.channels_to_open@,
                    message.start_spray_time as int,
                    message.end_spray_time as int,
                    now as int,
                    channel_map_view(*channel_map),
                ) is None
                &&& message.start_spray_time > now ==> exists|i: int|
                    first_unwired(message.channels_to_open@, channel_map_view(*channel_map), i)
                        && e == SprayError::UnknownChannel(message.channels_to_open@[i])
            },
        },
{
    if message.start_spray_time <= now {
        return Err(SprayError::Stale);
    }
    match remap_channels(&message.channels_to_open, channel_map) {
        Ok(wired) => Ok(plan_spray(&wired, message.start_spray_time, message.end_spray_time)),
        Err(e) => Err(e),
    }
}

/// A spray of at most a second, received before it starts, on channels that all have a
/// wired channel, puts exactly two entries in the queue: "on" at the start and "off" at
/// the end.
pub proof fn lemma_short_spray_two_entries(
    raw: Seq<u8>,
    start: int,
    end: int,
    now: int,
    map: Option<Map<u8, (u8, u8)>>,
)
    requires
        start > now,
        end - start <= PDM_HOLD_US,
        all_wired(raw, map),
    ensures
        weed_message_outcome(raw, start, end, now, map) is Some,
        weed_message_outcome(raw, start, end, now, map)->Some_0.len() == 2,
        weed_message_outcome(raw, start, end, now, map)->Some_0[0] == entry(
            wired_channels(raw, map),
            start,
            true,
            start,
            end,
        ),
        weed_message_outcome(raw, start, end, now, map)->Some_0[1] == entry(
            wired_channels(raw, map),
            end,
            false,
            start,
            end,
        ),
{
}

/// A spray longer than a second, received before it starts, on channels that all have a
/// wired channel, puts in the queue one "on" pulse every 100 ms after the start for as
/// long as more than 100 ms of the spray remains, then one "off" at the end:
/// `(end - start - 1) / 100 ms + 1` entries.
pub proof fn lemma_long_spray_entries(
    raw: Seq<u8>,
    start: int,
    end: int,
    now: int,
    map: Option<Map<u8, (u8, u8)>>,
)
    requires
        start > now,
        end - start > PDM_HOLD_US,
        all_wired(raw, map),
    ensures
        ({
            let p = weed_message_outcome(raw, start, end, now, map)->Some_0;
            let n = pulse_count(start, end);
            &&& weed_message_outcome(raw, start, end, now, map) is Some
            &&& p.len() == n + 1
            &&& forall|k: int|
                0 <= k < n ==> #[trigger] p[k] == entry(
                    wired_channels(raw, map),
                    start + (k + 1) * REPEAT_INTERVAL_US,
                    true,
                    start,
                    end,
                ) && end - (start + k * REPEAT_INTERVAL_US) > REPEAT_INTERVAL_US
            &&& end - (start + n * REPEAT_INTERVAL_US) <= REPEAT_INTERVAL_US
            &&& p[n] == entry(wired_channels(raw, map), end, false, start, end)
        }),
{
    let h = REPEAT_INTERVAL_US as int;
    let d = end - start;
    let n = pulse_count(start, end);
    lemma_fundamental_div_mod(d - 1, h);
    lemma_mod_pos_bound(d - 1, h);
    assert(d - 1 == h * n + (d - 1) % h);
    assert(n >= 0) by (nonlinear_arith)
        requires
            d - 1 == h * n + (d - 1) % h,
            0 <= (d - 1) % h < h,
            d > h,
            h > 0,
    ;
    assert forall|k: int| 0 <= k < n implies end - (start + #[trigger] (k * h)) > h by {
        assert(k * h <= (n - 1) * h) by (nonlinear_arith)
            requires
                k <= n - 1,
                h > 0,
        ;
    }
}

} // verus!

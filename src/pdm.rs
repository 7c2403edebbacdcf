use crate::channels::{
    first_pdm_channels,
    partition_for_pdms,
    second_pdm_channels,
    CHANNELS_PER_PDM,
};
use std::collections::HashMap;
use vstd::prelude::*;

verus! {

broadcast use vstd::std_specs::hash::group_hash_axioms;

/// Parameter group number of the PDM actuation message.
pub const ACTUATION_PGN: u8 = 17;

/// Duty cycle of a channel switched on, in percent.
pub const DUTY_ON: u8 = 100;

/// Duty cycle of a channel switched off, in percent.
pub const DUTY_OFF: u8 = 0;

/// A command for one PDM: set `channels` to `duty_percent` under parameter group `pgn`.
#[derive(Debug, Clone, PartialEq, Eq)]
pub struct Actuation {
    /// Index of the PDM in its crop bed (0 or 1).
    pub pdm_index: u8,
    pub pgn: u8,
    /// Channels in the PDM's own numbering.
    pub channels: Vec<u8>,
    pub duty_percent: u8,
}

pub struct ActuationView {
    pub pdm_index: u8,
    pub pgn: u8,
    pub channels: Seq<u8>,
    pub duty_percent: u8,
}

impl View for Actuation {
    type V = ActuationView;

    open spec fn view(&self) -> ActuationView {
        ActuationView {
            pdm_index: self.pdm_index,
            pgn: self.pgn,
            channels: self.channels@,
            duty_percent: self.duty_percent,
        }
    }
}

pub open spec fn actuations_view(v: Seq<Actuation>) -> Seq<ActuationView> {
    v.map_values(|a: Actuation| a@)
}

pub open spec fn duty_for(on: bool) -> u8 {
    if on {
        DUTY_ON
    } else {
        DUTY_OFF
    }
}

pub open spec fn actuation(pdm_index: u8, channels: Seq<u8>, duty: u8) -> ActuationView {
    ActuationView { pdm_index, pgn: ACTUATION_PGN, channels, duty_percent: duty }
}

/// The commands that switch `channels` (`1..=24`) on or off: one to the first PDM for the
/// channels up to 12, one to the second for those above, renumbered; none to a PDM that
/// has no channel in the set.
pub open spec fn switch_actuations(channels: Seq<u8>, on: bool) -> Seq<ActuationView> {
    let low = first_pdm_channels(channels);
    let high = second_pdm_channels(channels);
    (if low.len() > 0 {
        seq![actuation(0, low, duty_for(on))]
    } else {
        Seq::empty()
    }) + (if high.len() > 0 {
        seq![actuation(1, high, duty_for(on))]
    } else {
        Seq::empty()
    })
}

/// Channels `1..=12`, every output of one PDM.
pub open spec fn all_pdm_channels() -> Seq<u8> {
    Seq::new(CHANNELS_PER_PDM as nat, |i: int| (i + 1) as u8)
}

/// The keep-alive: every channel of both PDMs set to duty 0.
pub open spec fn heartbeat_actuations() -> Seq<ActuationView> {
    seq![actuation(0, all_pdm_channels(), DUTY_OFF), actuation(1, all_pdm_channels(), DUTY_OFF)]
}

fn every_pdm_channel() -> (r: Vec<u8>)
    ensures
        r@ == all_pdm_channels(),
{
    let mut out: Vec<u8> = Vec::new();
    let mut c: u8 = 1;
    while c <= CHANNELS_PER_PDM
        invariant
            1 <= c <= CHANNELS_PER_PDM + 1,
            out@ =~= Seq::new((c - 1) as nat, |i: int| (i + 1) as u8),
        decreases CHANNELS_PER_PDM + 1 - c,
    {
        out.push(c);
        c += 1;
    }
    out
}

/// Commands that switch `channels` on (duty 100) or off (duty 0) across the two PDMs.
pub fn switch_channels(channels: &Vec<u8>, is_on: bool) -> (r: Vec<Actuation>)
    ensures
        actuations_view(r@) == switch_actuations(channels@, is_on),
{
    let duty = if is_on {
        DUTY_ON
    } else {
        DUTY_OFF
    };
    let (low, high) = partition_for_pdms(channels);
    let mut out: Vec<Actuation> = Vec::new();
    if low.len() > 0 {
        out.push(Actuation { pdm_index: 0, pgn: ACTUATION_PGN, channels: low, duty_percent: duty });
    }
    if high.len() > 0 {
        out.push(Actuation { pdm_index: 1, pgn: ACTUATION_PGN, channels: high, duty_percent: duty });
    }
    assert(actuations_view(out@) =~= switch_actuations(channels@, is_on));
    out
}

/// The keep-alive commands for both PDMs.
pub fn heartbeat() -> (r: Vec<Actuation>)
    ensures
        actuations_view(r@) == heartbeat_actuations(),
{
    let mut out: Vec<Actuation> = Vec::new();
    out.push(
        Actuation {
            pdm_index: 0,
            pgn: ACTUATION_PGN,
            channels: every_pdm_channel(),
            duty_percent: DUTY_OFF,
        },
    );
    out.push(
        Actuation {
            pdm_index: 1,
            pgn: ACTUATION_PGN,
            channels: every_pdm_channel(),
            duty_percent: DUTY_OFF,
        },
    );
    assert(actuations_view(out@) =~= heartbeat_actuations());
    out
}

/// The keys of a channel table in ascending order, so that tables are written the same
/// way every time.
pub fn ordered_u8_map<T>(table: &HashMap<u8, T>) -> (r: Vec<u8>)
    ensures
        forall|i: int, j: int| 0 <= i < j < r@.len() ==> r@[i] < r@[j],
        forall|k: u8| table@.contains_key(k) <==> r@.contains(k),
{
    let mut out: Vec<u8> = Vec::new();
    let mut k: u16 = 0;
    while k < 256
        invariant
            k <= 256,
            forall|i: int, j: int| 0 <= i < j < out@.len() ==> out@[i] < out@[j],
            forall|i: int| 0 <= i < out@.len() ==> out@[i] < k,
            forall|c: u8| c < k ==> (table@.contains_key(c) <==> out@.contains(c)),
            forall|c: u8| out@.contains(c) ==> c < k,
        decreases 256 - k,
    {
        let key = k as u8;
        let ghost before = out@;
        let present = table.contains_key(&key);
        assert(present == table@.contains_key(key));
        assert(key as int == k as int);
        if present {
            out.push(key);
        }
        proof {
            assert forall|c: u8| c < k + 1 implies (table@.contains_key(c) <==> out@.contains(c)) by {
                if c == key {
                    assert(table@.contains_key(c) == present);
                    if present {
                        assert(out@[out@.len() - 1] == c);
                    } else {
                        assert(out@ == before);
                        assert(!before.contains(c));
                    }
                } else {
                    assert(c < k);
                    assert(table@.contains_key(c) <==> before.contains(c));
                    if present {
                        assert(out@ == before.push(key));
                        if out@.contains(c) {
                            let i = choose|i: int| 0 <= i < out@.len() && out@[i] == c;
                            assert(i < before.len());
                            assert(before[i] == c);
                        }
                        if before.contains(c) {
                            let i = choose|i: int| 0 <= i < before.len() && before[i] == c;
                            assert(out@[i] == c);
                        }
                    }
                }
            }
        }
        k += 1;
    }
    out
}

} // verus!

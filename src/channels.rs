use vstd::prelude::*;

verus! {

/// Number of output channels driven by one PDM.
pub const CHANNELS_PER_PDM: u8 = 12;

/// A channel in `1..=12` belongs to the first PDM; anything above to the second.
pub open spec fn on_first_pdm(c: u8) -> bool {
    c <= CHANNELS_PER_PDM
}

pub open spec fn on_second_pdm(c: u8) -> bool {
    c > CHANNELS_PER_PDM
}

/// Renumbers a channel of the second PDM into that PDM's own `1..=12` range.
pub open spec fn second_pdm_number(c: u8) -> u8 {
    (c - CHANNELS_PER_PDM) as u8
}

/// The channels that go to the first PDM, in the order given.
pub open spec fn first_pdm_channels(channels: Seq<u8>) -> Seq<u8> {
    channels.filter(|c: u8| on_first_pdm(c))
}

/// The channels that go to the second PDM, in the order given and in their own numbering.
pub open spec fn second_pdm_channels_raw(channels: Seq<u8>) -> Seq<u8> {
    channels.filter(|c: u8| on_second_pdm(c))
}

/// The channels that go to the second PDM, renumbered for that PDM.
pub open spec fn second_pdm_channels(channels: Seq<u8>) -> Seq<u8> {
    second_pdm_channels_raw(channels).map_values(|c: u8| second_pdm_number(c))
}

/// Splits channels into those at or below 12 and those above, keeping their order.
pub fn split_channels(channels: &Vec<u8>) -> (r: (Vec<u8>, Vec<u8>))
    ensures
        r.0@ == first_pdm_channels(channels@),
        r.1@ == second_pdm_channels_raw(channels@),
{
    broadcast use Seq::lemma_filter_push;

    let mut low: Vec<u8> = Vec::new();
    let mut high: Vec<u8> = Vec::new();
    let mut i: usize = 0;
    while i < channels.len()
        invariant
            i <= channels.len(),
            low@ == first_pdm_channels(channels@.subrange(0, i as int)),
            high@ == second_pdm_channels_raw(channels@.subrange(0, i as int)),
        decreases channels.len() - i,
    {
        let c = channels[i];
        let ghost prefix = channels@.subrange(0, i as int);
        assert(channels@.subrange(0, i + 1) == prefix.push(c));
        proof {
            prefix.lemma_filter_push(c, |c: u8| on_first_pdm(c));
            prefix.lemma_filter_push(c, |c: u8| on_second_pdm(c));
        }
        if c <= CHANNELS_PER_PDM {
            low.push(c);
        } else {
            high.push(c);
        }
        i += 1;
    }
    assert(channels@.subrange(0, i as int) == channels@);
    (low, high)
}

/// Renumbers channels above 12 into the second PDM's `1..=12` range.
pub fn renumber_for_second_pdm(channels: &Vec<u8>) -> (r: Vec<u8>)
    requires
        forall|i: int| 0 <= i < channels@.len() ==> on_second_pdm(#[trigger] channels@[i]),
    ensures
        r@ == channels@.map_values(|c: u8| second_pdm_number(c)),
{
    let mut out: Vec<u8> = Vec::new();
    let mut i: usize = 0;
    while i < channels.len()
        invariant
            i <= channels.len(),
            forall|k: int| 0 <= k < channels@.len() ==> on_second_pdm(#[trigger] channels@[k]),
            out@ == channels@.subrange(0, i as int).map_values(|c: u8| second_pdm_number(c)),
        decreases channels.len() - i,
    {
        let c = channels[i];
        assert(on_second_pdm(channels@[i as int]));
        out.push(c - CHANNELS_PER_PDM);
        assert(channels@.subrange(0, i + 1) == channels@.subrange(0, i as int).push(c));
        assert(out@ =~= channels@.subrange(0, i + 1).map_values(|c: u8| second_pdm_number(c)));
        i += 1;
    }
    assert(channels@.subrange(0, i as int) == channels@);
    out
}

/// Splits channels between the two PDMs of a crop bed: `1..=12` stay as they are for the
/// first, `13..=24` become `1..=12` for the second.
pub fn partition_for_pdms(channels: &Vec<u8>) -> (r: (Vec<u8>, Vec<u8>))
    ensures
        r.0@ == first_pdm_channels(channels@),
        r.1@ == second_pdm_channels(channels@),
{
    broadcast use Seq::lemma_filter_pred;

    let (low, high) = split_channels(channels);
    let shifted = renumber_for_second_pdm(&high);
    (low, shifted)
}

/// Every channel goes to exactly one PDM: those at or below 12 to the first, unchanged;
/// those above 12 to the second, less 12.
pub proof fn lemma_partition_exact(channels: Seq<u8>)
    ensures
        first_pdm_channels(channels).len() + second_pdm_channels(channels).len()
            == channels.len(),
        forall|i: int|
            0 <= i < first_pdm_channels(channels).len() ==> on_first_pdm(
                #[trigger] first_pdm_channels(channels)[i],
            ),
        forall|i: int|
            0 <= i < second_pdm_channels(channels).len() ==> 1 <= #[trigger] second_pdm_channels(
                channels,
            )[i] && second_pdm_channels_raw(channels)[i] == second_pdm_channels(channels)[i]
                + CHANNELS_PER_PDM,
        forall|i: int|
            0 <= i < channels.len() && on_first_pdm(channels[i]) ==> first_pdm_channels(
                channels,
            ).contains(#[trigger] channels[i]),
        forall|i: int|
            0 <= i < channels.len() && on_second_pdm(channels[i]) ==> second_pdm_channels(
                channels,
            ).contains((#[trigger] channels[i] - CHANNELS_PER_PDM) as u8),
    decreases channels.len(),
{
    broadcast use Seq::lemma_filter_pred, Seq::lemma_filter_contains;

    let low = |c: u8| on_first_pdm(c);
    let high = |c: u8| on_second_pdm(c);
    if channels.len() > 0 {
        let rest = channels.drop_last();
        lemma_partition_exact(rest);
        assert(channels == rest.push(channels.last()));
        rest.lemma_filter_push(channels.last(), low);
        rest.lemma_filter_push(channels.last(), high);
    } else {
        reveal(Seq::filter);
    }
    assert forall|i: int|
        0 <= i < channels.len() && on_second_pdm(channels[i]) implies second_pdm_channels(
        channels,
    ).contains((#[trigger] channels[i] - CHANNELS_PER_PDM) as u8) by {
        let raw = second_pdm_channels_raw(channels);
        assert(raw.contains(channels[i]));
        let j = choose|j: int| 0 <= j < raw.len() && raw[j] == channels[i];
        assert(second_pdm_channels(channels)[j] == (channels[i] - CHANNELS_PER_PDM) as u8);
    }
}

/// Splitting keeps order and works element by element: the split of two lists one after
/// the other is the split of the first followed by the split of the second, on each side.
pub proof fn lemma_partition_stable(a: Seq<u8>, b: Seq<u8>)
    ensures
        first_pdm_channels(a + b) == first_pdm_channels(a) + first_pdm_channels(b),
        second_pdm_channels_raw(a + b) == second_pdm_channels_raw(a) + second_pdm_channels_raw(b),
        second_pdm_channels(a + b) == second_pdm_channels(a) + second_pdm_channels(b),
{
    Seq::filter_distributes_over_add(a, b, |c: u8| on_first_pdm(c));
    Seq::filter_distributes_over_add(a, b, |c: u8| on_second_pdm(c));
    assert(second_pdm_channels(a + b) =~= second_pdm_channels(a) + second_pdm_channels(b));
}

} // verus!

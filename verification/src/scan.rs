//! Selecting the target network among scan results.
//!
//! A scan yields a sequence of discovered networks. The target network
//! is the first entry, in scan order, whose name equals the validated
//! credential's name: equality is exact and case-sensitive, with no
//! partial or fuzzy matching. When several entries share the name
//! (distinct access points), the first one encountered wins and its
//! channel is used.

use vstd::prelude::*;

verus! {

/// One network discovered by a radio scan. Produced transiently by the
/// scan step and consumed immediately to resolve the target channel.
#[derive(Clone, Debug)]
pub struct DiscoveredNetwork {
    /// The advertised network name.
    pub ssid: String,
    /// The radio channel the network operates on.
    pub channel: u8,
}

/// The channel of the first entry of `scan` named `name`, or `None`
/// when no entry is.
pub open spec fn first_match_channel(scan: Seq<DiscoveredNetwork>, name: Seq<char>) -> Option<u8>
    decreases scan.len(),
{
    if scan.len() == 0 {
        None
    } else if scan[0].ssid@ == name {
        Some(scan[0].channel)
    } else {
        first_match_channel(scan.drop_first(), name)
    }
}

/// No entry of `scan` is named `name` exactly when the match comes up
/// empty.
pub proof fn lemma_first_match_none(scan: Seq<DiscoveredNetwork>, name: Seq<char>)
    ensures
        first_match_channel(scan, name) is None <==> (forall|i: int|
            0 <= i < scan.len() ==> scan[i].ssid@ != name),
    decreases scan.len(),
{
    if scan.len() > 0 {
        lemma_first_match_none(scan.drop_first(), name);
        if scan[0].ssid@ != name {
            assert(forall|i: int|
                1 <= i < scan.len() ==> scan[i].ssid@ == scan.drop_first()[i - 1].ssid@);
        }
    }
}

/// Deterministic tie-break: when entry `i` is named `name` and no
/// earlier entry is, the match selects entry `i`'s channel, whatever
/// later entries hold.
pub proof fn lemma_first_match_selects_first(
    scan: Seq<DiscoveredNetwork>,
    name: Seq<char>,
    i: int,
)
    requires
        0 <= i < scan.len(),
        scan[i].ssid@ == name,
        forall|j: int| 0 <= j < i ==> scan[j].ssid@ != name,
    ensures
        first_match_channel(scan, name) == Some(scan[i].channel),
    decreases scan.len(),
{
    if i > 0 {
        lemma_first_match_selects_first(scan.drop_first(), name, i - 1);
    }
}

/// Scans `scan` in order for the first entry named `name` and returns
/// its channel.
pub fn find_channel(scan: &Vec<DiscoveredNetwork>, name: &str) -> (r: Option<u8>)
    ensures
        r == first_match_channel(scan@, name@),
{
    let target: String = name.to_owned();
    let mut i: usize = 0;
    assert(scan@.skip(0) =~= scan@);
    while i < scan.len()
        invariant
            0 <= i <= scan@.len(),
            target@ == name@,
            first_match_channel(scan@, name@) == first_match_channel(
                scan@.skip(i as int),
                name@,
            ),
        decreases scan@.len() - i,
    {
        let entry = &scan[i];
        assert(scan@.skip(i as int)[0] == scan@[i as int]);
        if entry.ssid == target {
            return Some(entry.channel);
        }
        assert(scan@.skip(i as int).drop_first() =~= scan@.skip(i + 1));
        i = i + 1;
    }
    assert(scan@.skip(i as int) =~= Seq::<DiscoveredNetwork>::empty());
    None
}

} // verus!

//! The beacons of peer discovery and the defaults that go with them.

use vstd::prelude::*;

verus! {

/// The port that beacons are sent to.
pub const DEFAULT_PORT: u16 = 55669;

/// The multicast group that beacons are sent to.
pub const DEFAULT_MULTICAST_ADDRESS: [u8; 4] = [239, 255, 255, 250];

/// The address that listeners bind.
pub const DEFAULT_ADDRESS: [u8; 4] = [0, 0, 0, 0];

/// Seconds between two searches.
pub const DEFAULT_POOLING_RATE_SECS: u64 = 5;

/// Length of a beacon.
pub const PACKAGE_LEN: usize = 5;

/// The beacon of a searcher.
pub const DEFAULT_SEARCH_PACKAGE: [u8; 5] = [8, 100, 193, 210, 19];

/// The beacon with which a listener answers a searcher.
pub const DEFAULT_ANSWER_PACKAGE: [u8; 5] = [65, 238, 212, 64, 80];

/// What a datagram on the discovery port is.
#[derive(Debug, Clone, Copy, PartialEq, Eq, Structural)]
pub enum Beacon {
    /// A searcher looks for listeners.
    Search,
    /// A listener answers a searcher.
    Answer,
    /// Something else.
    Other,
}

/// What the datagram `data` is.
pub open spec fn beacon_of(data: Seq<u8>) -> Beacon {
    if data == DEFAULT_SEARCH_PACKAGE@ {
        Beacon::Search
    } else if data == DEFAULT_ANSWER_PACKAGE@ {
        Beacon::Answer
    } else {
        Beacon::Other
    }
}

/// Whether `data` is `package`, byte for byte.
fn is_package(data: &[u8], package: &[u8; 5]) -> (same: bool)
    ensures
        same == (data@ == package@),
{
    if data.len() != PACKAGE_LEN {
        return false;
    }
    let mut at: usize = 0;
    while at < PACKAGE_LEN
        invariant
            at <= PACKAGE_LEN,
            data@.len() == PACKAGE_LEN,
            package@.len() == PACKAGE_LEN,
            forall|i: int| 0 <= i < at ==> data@[i] == package@[i],
        decreases PACKAGE_LEN - at,
    {
        if data[at] != package[at] {
            return false;
        }
        at = at + 1;
    }
    proof {
        assert(data@ =~= package@);
    }
    true
}

/// Tells the beacons apart from each other and from anything else.
pub fn classify(data: &[u8]) -> (beacon: Beacon)
    ensures
        beacon == beacon_of(data@),
{
    if is_package(data, &DEFAULT_SEARCH_PACKAGE) {
        Beacon::Search
    } else if is_package(data, &DEFAULT_ANSWER_PACKAGE) {
        Beacon::Answer
    } else {
        Beacon::Other
    }
}

/// What a listener sends back for the datagram `data`: the answer beacon for
/// a search, nothing for anything else.
pub fn answer_for(data: &[u8]) -> (answer: Option<[u8; 5]>)
    ensures
        answer == if beacon_of(data@) == Beacon::Search {
            Some(DEFAULT_ANSWER_PACKAGE)
        } else {
            None
        },
{
    match classify(data) {
        Beacon::Search => Some(DEFAULT_ANSWER_PACKAGE),
        _ => None,
    }
}

} // verus!

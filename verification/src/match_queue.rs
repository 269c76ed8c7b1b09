//! The queue of pending matches: a bounded list of at most 20
//! scheduled pairings. A full queue rejects a further entry rather
//! than evicting an old one.

use vstd::prelude::*;
use crate::addr::Addr;

verus! {

/// One scheduled pairing awaiting resolution.
#[derive(Clone, Debug)]
pub struct PendingMatch {
    pub team1: Addr,
    pub team2: Addr,
    pub match_type: String,
    pub timestamp: i64,
}

/// The pending-match queue record.
#[derive(Clone, Debug)]
pub struct MatchQueue {
    pub pending_matches: Vec<PendingMatch>,
}

impl MatchQueue {
    /// Record well-formedness: at most 20 entries, each with a bounded
    /// match type.
    pub open spec fn wf(self) -> bool {
        &&& self.pending_matches@.len() <= 20
        &&& forall|i: int|
            0 <= i < self.pending_matches@.len() ==> (
            #[trigger] self.pending_matches@[i]).match_type@.len() <= 20
    }
}

} // verus!

//! The data that finalization reads and writes: the outcome payload, the
//! ballot box that holds it, and the record that fixes it.

use vstd::prelude::*;

verus! {

/// The outcome of a ballot. The library never looks inside: it is carried
/// and copied as bytes.
#[derive(Debug, PartialEq, Eq)]
pub struct Ballot {
    pub payload: Vec<u8>,
}

impl View for Ballot {
    type V = Seq<u8>;

    open spec fn view(&self) -> Seq<u8> {
        self.payload@
    }
}

impl Ballot {
    /// Wraps a payload.
    pub fn new(payload: Vec<u8>) -> (r: Ballot)
        ensures
            r@ == payload@,
    {
        Ballot { payload }
    }
}

impl Clone for Ballot {
    fn clone(&self) -> (r: Ballot)
        ensures
            r@ == self@,
    {
        Ballot { payload: self.payload.clone() }
    }
}

/// A ballot's identity, its winning outcome and whether its tally has
/// reached consensus. Finalization only reads it.
#[derive(Debug, PartialEq, Eq)]
pub struct BallotBox {
    pub ballot_id: u64,
    pub winning_ballot: Ballot,
    pub consensus_reached: bool,
}

impl BallotBox {
    /// A ballot box with the given identity, outcome and tally state.
    pub fn new(ballot_id: u64, winning_ballot: Ballot, consensus_reached: bool) -> (r: BallotBox)
        ensures
            r.ballot_id == ballot_id,
            r.winning_ballot@ == winning_ballot@,
            r.consensus_reached == consensus_reached,
    {
        BallotBox { ballot_id, winning_ballot, consensus_reached }
    }

    /// Whether the tally has reached consensus. The winning outcome means
    /// something only where this holds.
    pub fn has_consensus_reached(&self) -> (r: bool)
        ensures
            r == self.consensus_reached,
    {
        self.consensus_reached
    }
}

/// What a consensus result says, as a mathematical value.
pub struct RecordView {
    pub ballot_id: u64,
    pub ballot: Seq<u8>,
}

/// The record of a finalized ballot: its identity and the outcome that won.
#[derive(Debug, PartialEq, Eq)]
pub struct ConsensusResult {
    pub ballot_id: u64,
    pub ballot: Ballot,
}

impl View for ConsensusResult {
    type V = RecordView;

    open spec fn view(&self) -> RecordView {
        RecordView { ballot_id: self.ballot_id, ballot: self.ballot@ }
    }
}

impl Clone for ConsensusResult {
    fn clone(&self) -> (r: ConsensusResult)
        ensures
            r@ == self@,
    {
        ConsensusResult { ballot_id: self.ballot_id, ballot: self.ballot.clone() }
    }
}

} // verus!

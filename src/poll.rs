//! The poll's own rules, over plain values: the two option keys, how a stored
//! counter is read, and how a vote moves the pair of tallies.

use vstd::prelude::*;

verus! {

/// The key under which an option's counter is stored.
#[derive(Clone, Copy, Debug, PartialEq, Eq, Structural)]
pub enum DataKey {
    OptionA,
    OptionB,
}

/// Why a vote was not recorded.
#[derive(Clone, Copy, Debug, PartialEq, Eq, Structural)]
pub enum VoteError {
    /// The option's counter already holds `u32::MAX`.
    CountOverflow,
}

impl DataKey {
    /// The option's name: the symbol of its storage key and the data of its
    /// vote event.
    pub open spec fn label(self) -> Seq<char> {
        match self {
            DataKey::OptionA => "OptionA"@,
            DataKey::OptionB => "OptionB"@,
        }
    }

    pub fn name(&self) -> (r: &'static str)
        ensures
            r@ == self.label(),
    {
        match self {
            DataKey::OptionA => "OptionA",
            DataKey::OptionB => "OptionB",
        }
    }
}

/// The counter that a stored value stands for: an absent value counts as zero.
pub open spec fn count_of(stored: Option<u32>) -> u32 {
    match stored {
        Some(n) => n,
        None => 0,
    }
}

/// Reads a stored counter, with zero for a counter never written.
pub fn read_count(stored: Option<u32>) -> (r: u32)
    ensures
        r == count_of(stored),
{
    match stored {
        Some(n) => n,
        None => 0,
    }
}

/// The counter after one more vote, or an error where it cannot grow.
pub fn next_count(stored: Option<u32>) -> (r: Result<u32, VoteError>)
    ensures
        r is Ok <==> count_of(stored) < u32::MAX,
        r is Ok ==> r->Ok_0 == count_of(stored) + 1,
        r is Err ==> r->Err_0 == VoteError::CountOverflow,
{
    let n = read_count(stored);
    if n < u32::MAX {
        Ok(n + 1)
    } else {
        Err(VoteError::CountOverflow)
    }
}

/// The tallies `(count for OptionA, count for OptionB)` after one vote for
/// `key`.
pub open spec fn after_vote(t: (u32, u32), key: DataKey) -> (u32, u32) {
    match key {
        DataKey::OptionA => ((t.0 + 1) as u32, t.1),
        DataKey::OptionB => (t.0, (t.1 + 1) as u32),
    }
}

/// The count of `key`'s tally in `t`.
pub open spec fn tally_of(t: (u32, u32), key: DataKey) -> u32 {
    match key {
        DataKey::OptionA => t.0,
        DataKey::OptionB => t.1,
    }
}

/// How many of `votes` are for `key`.
pub open spec fn votes_for(votes: Seq<DataKey>, key: DataKey) -> nat
    decreases votes.len(),
{
    if votes.len() == 0 {
        0
    } else {
        votes_for(votes.drop_last(), key) + if votes.last() == key {
            1nat
        } else {
            0nat
        }
    }
}

} // verus!

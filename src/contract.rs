//! The poll contract's entry points, over the host's instance storage and
//! event log.

use vstd::prelude::*;
use soroban_sdk::Env;
use crate::host::{in_contract, instance_slots, is_symbol, publish_text, store_u32, stored_u32, text_events};
use crate::poll::{after_vote, next_count, read_count, tally_of, votes_for, DataKey, VoteError};

verus! {

/// The poll contract. It holds nothing itself: its two counters live in the
/// host's instance storage.
pub struct LivePoll;

/// The text of the topic symbol of every vote event.
pub open spec fn vote_topic() -> Seq<char> {
    "vote"@
}

/// The stored value of `key`'s counter, if any.
pub open spec fn stored_count(env: Env, key: DataKey) -> Option<u32> {
    if instance_slots(env).contains_key(key.label()) {
        instance_slots(env)[key.label()]
    } else {
        None
    }
}

/// `key`'s counter is absent or holds a `u32`.
pub open spec fn count_readable(env: Env, key: DataKey) -> bool {
    instance_slots(env).contains_key(key.label()) ==> instance_slots(env)[key.label()] is Some
}

/// Both counters can be read.
pub open spec fn counts_readable(env: Env) -> bool {
    count_readable(env, DataKey::OptionA) && count_readable(env, DataKey::OptionB)
}

/// The count of `key`'s votes in `env`: zero where none was stored.
pub open spec fn count_in(env: Env, key: DataKey) -> u32 {
    match stored_count(env, key) {
        Some(n) => n,
        None => 0,
    }
}

/// The pair of tallies `(OptionA, OptionB)` that `env` holds.
pub open spec fn tallies(env: Env) -> (u32, u32) {
    (count_in(env, DataKey::OptionA), count_in(env, DataKey::OptionB))
}

/// The event that a vote for `key` publishes.
pub open spec fn vote_event(key: DataKey) -> (Seq<char>, Seq<char>) {
    (vote_topic(), key.label())
}

/// What a vote for `key` does to `before`, giving `after` and the result `r`:
/// on success `key`'s counter is written with its tally plus one, no other
/// entry changes, and exactly one vote event naming `key` is published; on
/// overflow nothing changes.
pub open spec fn vote_effect(before: Env, after: Env, key: DataKey, r: Result<(), VoteError>) -> bool {
    &&& r is Ok <==> tally_of(tallies(before), key) < u32::MAX
    &&& in_contract(after) == in_contract(before)
    &&& r is Ok ==> {
        &&& instance_slots(after) == instance_slots(before).insert(
            key.label(),
            Some((tally_of(tallies(before), key) + 1) as u32),
        )
        &&& tallies(after) == after_vote(tallies(before), key)
        &&& text_events(after) == text_events(before).push(vote_event(key))
        &&& counts_readable(after)
    }
    &&& r is Err ==> {
        &&& r->Err_0 == VoteError::CountOverflow
        &&& instance_slots(after) == instance_slots(before)
        &&& text_events(after) == text_events(before)
    }
}

proof fn lemma_names_are_symbols()
    ensures
        is_symbol(DataKey::OptionA.label()),
        is_symbol(DataKey::OptionB.label()),
        is_symbol(vote_topic()),
        DataKey::OptionA.label() != DataKey::OptionB.label(),
{
    reveal_strlit("OptionA");
    reveal_strlit("OptionB");
    reveal_strlit("vote");
    assert(DataKey::OptionA.label()[6] != DataKey::OptionB.label()[6]);
}

/// A poll whose instance storage is empty, as on a fresh deployment, has both
/// counters readable and tallies `(0, 0)`.
pub proof fn lemma_fresh_poll_is_zero(env: Env)
    requires
        instance_slots(env) == Map::<Seq<char>, Option<u32>>::empty(),
    ensures
        counts_readable(env),
        tallies(env) == (0u32, 0u32),
{
}

/// A vote for OptionA then one for OptionB leaves the same instance storage
/// as the same two votes in the other order, when both succeed: `a1`, `ab`
/// follow `s` by the first order, `b1`, `ba` by the second.
pub proof fn lemma_vote_order_leaves_equal_storage(
    s: Env,
    a1: Env,
    ab: Env,
    b1: Env,
    ba: Env,
    r1: Result<(), VoteError>,
    r2: Result<(), VoteError>,
    r3: Result<(), VoteError>,
    r4: Result<(), VoteError>,
)
    requires
        vote_effect(s, a1, DataKey::OptionA, r1),
        vote_effect(a1, ab, DataKey::OptionB, r2),
        vote_effect(s, b1, DataKey::OptionB, r3),
        vote_effect(b1, ba, DataKey::OptionA, r4),
        r1 is Ok,
        r2 is Ok,
        r3 is Ok,
        r4 is Ok,
    ensures
        instance_slots(ab) == instance_slots(ba),
        tallies(ab) == tallies(ba),
{
    lemma_names_are_symbols();
    assert(instance_slots(ab) =~= instance_slots(ba));
}

proof fn lemma_votes_for_prefix(votes: Seq<DataKey>, k: int, key: DataKey)
    requires
        0 <= k <= votes.len(),
    ensures
        votes_for(votes.take(k), key) <= votes_for(votes, key),
    decreases votes.len() - k,
{
    if k < votes.len() {
        lemma_votes_for_prefix(votes, k + 1, key);
        assert(votes.take(k + 1).drop_last() =~= votes.take(k));
    } else {
        assert(votes.take(k) =~= votes);
    }
}

proof fn lemma_tallies_after_prefix(
    states: Seq<Env>,
    votes: Seq<DataKey>,
    results: Seq<Result<(), VoteError>>,
    k: int,
)
    requires
        states.len() == votes.len() + 1,
        results.len() == votes.len(),
        tallies(states[0]) == (0u32, 0u32),
        forall|i: int|
            0 <= i < votes.len() ==> vote_effect(states[i], states[i + 1], votes[i], results[i]),
        votes_for(votes, DataKey::OptionA) <= u32::MAX,
        votes_for(votes, DataKey::OptionB) <= u32::MAX,
        0 <= k <= votes.len(),
    ensures
        tallies(states[k]) == (
            votes_for(votes.take(k), DataKey::OptionA) as u32,
            votes_for(votes.take(k), DataKey::OptionB) as u32,
        ),
        forall|j: int| 0 <= j < k ==> results[j] is Ok,
    decreases k,
{
    if k > 0 {
        lemma_tallies_after_prefix(states, votes, results, k - 1);
        lemma_votes_for_prefix(votes, k, DataKey::OptionA);
        lemma_votes_for_prefix(votes, k, DataKey::OptionB);
        assert(votes.take(k).drop_last() =~= votes.take(k - 1));
        assert(votes.take(k).last() == votes[k - 1]);
        assert(vote_effect(states[k - 1], states[k], votes[k - 1], results[k - 1]));
    } else {
        assert(votes.take(0) =~= Seq::<DataKey>::empty());
    }
}

/// Votes cast one after another on a poll whose tallies start at zero, in any
/// order, all succeed and leave the tallies at the number of votes for each
/// option, as long as neither number exceeds `u32::MAX`: `states[i + 1]` is
/// the host state after the vote `votes[i]`, which returned `results[i]`.
pub proof fn lemma_tallies_count_votes(
    states: Seq<Env>,
    votes: Seq<DataKey>,
    results: Seq<Result<(), VoteError>>,
)
    requires
        states.len() == votes.len() + 1,
        results.len() == votes.len(),
        tallies(states[0]) == (0u32, 0u32),
        forall|i: int|
            0 <= i < votes.len() ==> vote_effect(states[i], states[i + 1], votes[i], results[i]),
        votes_for(votes, DataKey::OptionA) <= u32::MAX,
        votes_for(votes, DataKey::OptionB) <= u32::MAX,
    ensures
        forall|i: int| 0 <= i < results.len() ==> results[i] is Ok,
        tallies(states.last()) == (
            votes_for(votes, DataKey::OptionA) as u32,
            votes_for(votes, DataKey::OptionB) as u32,
        ),
{
    lemma_tallies_after_prefix(states, votes, results, votes.len() as int);
    assert(votes.take(votes.len() as int) =~= votes);
}

impl LivePoll {
    /// Reads `key`'s counter, with zero where it was never written.
    fn count(env: &Env, key: DataKey) -> (r: u32)
        requires
            in_contract(*env),
            counts_readable(*env),
        ensures
            r == count_in(*env, key),
    {
        proof {
            lemma_names_are_symbols();
        }
        read_count(stored_u32(env, key.name()))
    }

    /// Records one vote for `key` and publishes its event.
    pub fn vote(env: &mut Env, key: DataKey) -> (r: Result<(), VoteError>)
        requires
            in_contract(*old(env)),
            counts_readable(*old(env)),
        ensures
            vote_effect(*old(env), *final(env), key, r),
    {
        proof {
            lemma_names_are_symbols();
        }
        let name = key.name();
        let stored = stored_u32(env, name);
        match next_count(stored) {
            Ok(n) => {
                store_u32(env, name, n);
                publish_text(env, "vote", name);
                Ok(())
            },
            Err(e) => Err(e),
        }
    }

    /// Records one vote for OptionA.
    pub fn vote_a(env: &mut Env) -> (r: Result<(), VoteError>)
        requires
            in_contract(*old(env)),
            counts_readable(*old(env)),
        ensures
            vote_effect(*old(env), *final(env), DataKey::OptionA, r),
    {
        LivePoll::vote(env, DataKey::OptionA)
    }

    /// Records one vote for OptionB.
    pub fn vote_b(env: &mut Env) -> (r: Result<(), VoteError>)
        requires
            in_contract(*old(env)),
            counts_readable(*old(env)),
        ensures
            vote_effect(*old(env), *final(env), DataKey::OptionB, r),
    {
        LivePoll::vote(env, DataKey::OptionB)
    }

    /// The tallies `(OptionA, OptionB)`.
    pub fn get_results(env: &Env) -> (r: (u32, u32))
        requires
            in_contract(*env),
            counts_readable(*env),
        ensures
            r == tallies(*env),
    {
        let a = LivePoll::count(env, DataKey::OptionA);
        let b = LivePoll::count(env, DataKey::OptionB);
        (a, b)
    }
}

} // verus!

use live_poll::contract::LivePoll;
use live_poll::poll::{next_count, read_count, DataKey, VoteError};
use soroban_sdk::testutils::{ContractFunctionSet, EnvTestConfig, Events};
use soroban_sdk::xdr::{ContractEventBody, ScString, ScSymbol, ScVal};
use soroban_sdk::{Env, Symbol, Val};

/// A contract with no entry points: it only gives the tests a contract
/// instance whose storage the library can use.
struct Bare;

impl ContractFunctionSet for Bare {
    fn call(&self, _func: &str, _env: Env, _args: &[Val]) -> Option<Val> {
        None
    }
}

/// Runs `f` inside a fresh contract instance and returns the environment with
/// what `f` returned.
fn in_fresh_poll<T>(f: impl FnOnce(&mut Env) -> T) -> (Env, T) {
    let env = Env::new_with_config(EnvTestConfig {
        capture_snapshot_at_drop: false,
    });
    let id = env.register(Bare, ());
    let mut inner = env.clone();
    let out = env.as_contract(&id, || f(&mut inner));
    (env, out)
}

/// The one-symbol topic and string data of every event recorded in `env`.
fn recorded_events(env: &Env) -> Vec<(ScVal, ScVal)> {
    env.events()
        .all()
        .events()
        .iter()
        .map(|e| match &e.body {
            ContractEventBody::V0(v0) => {
                assert_eq!(v0.topics.len(), 1);
                (v0.topics[0].clone(), v0.data.clone())
            }
        })
        .collect()
}

fn vote_event(option: &str) -> (ScVal, ScVal) {
    (
        ScVal::Symbol(ScSymbol("vote".try_into().unwrap())),
        ScVal::String(ScString(option.try_into().unwrap())),
    )
}

#[test]
fn fresh_poll_returns_zero_zero() {
    let (_, r) = in_fresh_poll(|env| LivePoll::get_results(env));
    assert_eq!(r, (0, 0));
}

#[test]
fn single_vote_a_then_results() {
    let (_, r) = in_fresh_poll(|env| {
        assert_eq!(LivePoll::vote_a(env), Ok(()));
        LivePoll::get_results(env)
    });
    assert_eq!(r, (1, 0));
}

#[test]
fn single_vote_b_then_results() {
    let (_, r) = in_fresh_poll(|env| {
        assert_eq!(LivePoll::vote_b(env), Ok(()));
        LivePoll::get_results(env)
    });
    assert_eq!(r, (0, 1));
}

#[test]
fn get_results_twice_gives_equal_pairs() {
    let (_, (first, second)) = in_fresh_poll(|env| {
        LivePoll::vote_a(env).unwrap();
        LivePoll::vote_b(env).unwrap();
        LivePoll::vote_b(env).unwrap();
        let first = LivePoll::get_results(env);
        let second = LivePoll::get_results(env);
        (first, second)
    });
    assert_eq!(first, (1, 2));
    assert_eq!(first, second);
}

#[test]
fn vote_a_twice_counts_two() {
    let (_, r) = in_fresh_poll(|env| {
        LivePoll::vote_a(env).unwrap();
        LivePoll::vote_a(env).unwrap();
        LivePoll::get_results(env)
    });
    assert_eq!(r, (2, 0));
}

#[test]
fn interleaved_votes_are_all_counted() {
    let order = [
        DataKey::OptionB,
        DataKey::OptionA,
        DataKey::OptionB,
        DataKey::OptionB,
        DataKey::OptionA,
        DataKey::OptionB,
        DataKey::OptionA,
        DataKey::OptionB,
    ];
    let (_, r) = in_fresh_poll(|env| {
        for key in order {
            assert_eq!(LivePoll::vote(env, key), Ok(()));
        }
        LivePoll::get_results(env)
    });
    assert_eq!(r, (3, 5));
}

#[test]
fn vote_a_publishes_one_vote_event() {
    let (env, _) = in_fresh_poll(|env| LivePoll::vote_a(env).unwrap());
    assert_eq!(recorded_events(&env), vec![vote_event("OptionA")]);
}

#[test]
fn vote_b_publishes_one_vote_event() {
    let (env, _) = in_fresh_poll(|env| LivePoll::vote_b(env).unwrap());
    assert_eq!(recorded_events(&env), vec![vote_event("OptionB")]);
}

#[test]
fn votes_publish_one_event_each_in_order() {
    let (env, _) = in_fresh_poll(|env| {
        LivePoll::vote_b(env).unwrap();
        LivePoll::vote_a(env).unwrap();
        LivePoll::vote_b(env).unwrap();
    });
    assert_eq!(
        recorded_events(&env),
        vec![vote_event("OptionB"), vote_event("OptionA"), vote_event("OptionB")]
    );
}

#[test]
fn get_results_publishes_nothing() {
    let (env, _) = in_fresh_poll(|env| LivePoll::get_results(env));
    assert_eq!(recorded_events(&env), vec![]);
}

#[test]
fn counters_are_stored_under_one_symbol_keys() {
    let (_, stored) = in_fresh_poll(|env| {
        LivePoll::vote_b(env).unwrap();
        LivePoll::vote_b(env).unwrap();
        let a = env.storage().instance().get::<_, u32>(&(Symbol::new(env, "OptionA"),));
        let b = env.storage().instance().get::<_, u32>(&(Symbol::new(env, "OptionB"),));
        (a, b)
    });
    assert_eq!(stored, (None, Some(2)));
}

#[test]
fn stored_counts_are_read_back() {
    let (_, r) = in_fresh_poll(|env| {
        env.storage().instance().set(&(Symbol::new(env, "OptionA"),), &41u32);
        env.storage().instance().set(&(Symbol::new(env, "OptionB"),), &7u32);
        LivePoll::vote_a(env).unwrap();
        LivePoll::get_results(env)
    });
    assert_eq!(r, (42, 7));
}

#[test]
fn vote_at_largest_count_fails_and_changes_nothing() {
    let (env, (r, results)) = in_fresh_poll(|env| {
        env.storage().instance().set(&(Symbol::new(env, "OptionA"),), &u32::MAX);
        let r = LivePoll::vote_a(env);
        (r, LivePoll::get_results(env))
    });
    assert_eq!(r, Err(VoteError::CountOverflow));
    assert_eq!(results, (u32::MAX, 0));
    assert_eq!(recorded_events(&env), vec![]);
}

#[test]
fn vote_b_still_counts_when_option_a_is_full() {
    let (_, (r, results)) = in_fresh_poll(|env| {
        env.storage().instance().set(&(Symbol::new(env, "OptionA"),), &u32::MAX);
        let r = LivePoll::vote_b(env);
        (r, LivePoll::get_results(env))
    });
    assert_eq!(r, Ok(()));
    assert_eq!(results, (u32::MAX, 1));
}

#[test]
fn read_count_defaults_to_zero() {
    assert_eq!(read_count(None), 0);
    assert_eq!(read_count(Some(17)), 17);
}

#[test]
fn next_count_adds_one_or_fails_at_max() {
    assert_eq!(next_count(None), Ok(1));
    assert_eq!(next_count(Some(9)), Ok(10));
    assert_eq!(next_count(Some(u32::MAX - 1)), Ok(u32::MAX));
    assert_eq!(next_count(Some(u32::MAX)), Err(VoteError::CountOverflow));
}

#[test]
fn option_names() {
    assert_eq!(DataKey::OptionA.name(), "OptionA");
    assert_eq!(DataKey::OptionB.name(), "OptionB");
}

#[test]
fn vote_order_leaves_equal_storage() {
    let read_back = |env: &mut Env| {
        let a = env.storage().instance().get::<_, u32>(&(Symbol::new(env, "OptionA"),));
        let b = env.storage().instance().get::<_, u32>(&(Symbol::new(env, "OptionB"),));
        (a, b)
    };
    let (_, ab) = in_fresh_poll(|env| {
        LivePoll::vote_a(env).unwrap();
        LivePoll::vote_b(env).unwrap();
        read_back(env)
    });
    let (_, ba) = in_fresh_poll(|env| {
        LivePoll::vote_b(env).unwrap();
        LivePoll::vote_a(env).unwrap();
        read_back(env)
    });
    assert_eq!(ab, (Some(1), Some(1)));
    assert_eq!(ab, ba);
}

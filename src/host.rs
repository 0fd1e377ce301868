//! What this library takes from the host through `soroban_sdk`: the current
//! contract's instance storage and its event log. Storage can only be reached
//! while a contract is running, which the calls below require. Beyond that,
//! the host aborts an invocation whose budget is spent and rolls it back.
//!
//! The host lets storage and events change through a shared `&Env`. Here each
//! change goes through `&mut Env`, so that contracts can relate the state before
//! and after it. Clones of an `Env` share one host; this library clones none.

use vstd::prelude::*;

verus! {

#[verifier::external_type_specification]
#[verifier::external_body]
pub struct ExEnv(soroban_sdk::Env);

/// What the current contract's instance storage holds under each key that is
/// a one-symbol tuple, by the symbol's text: `Some(n)` where the value is the
/// `u32` `n`, `None` where it is a value of another type.
pub uninterp spec fn instance_slots(env: soroban_sdk::Env) -> Map<Seq<char>, Option<u32>>;

/// A contract is executing in `env`, so that its instance storage can be
/// reached.
pub uninterp spec fn in_contract(env: soroban_sdk::Env) -> bool;

/// The events recorded so far whose topics are one symbol and whose data is a
/// string, in order, each as the symbol's text and the string.
pub uninterp spec fn text_events(env: soroban_sdk::Env) -> Seq<(Seq<char>, Seq<char>)>;

/// A character that a `Symbol` may hold.
pub open spec fn is_symbol_char(c: char) -> bool {
    ('a' <= c && c <= 'z') || ('A' <= c && c <= 'Z') || ('0' <= c && c <= '9') || c == '_'
}

/// A text that `Symbol::new` accepts.
pub open spec fn is_symbol(s: Seq<char>) -> bool {
    s.len() <= 32 && forall|i: int| 0 <= i < s.len() ==> is_symbol_char(#[trigger] s[i])
}

/// Relies on `Symbol::new` and `Instance::get`: the value stored under the key
/// `(name,)`, `None` when there is none. `get` panics where the value is not a
/// `u32`, or where no contract is running, and `Symbol::new` where `name` is
/// not a valid symbol.
#[verifier::external_body]
pub(crate) fn stored_u32(env: &soroban_sdk::Env, name: &str) -> (r: Option<u32>)
    requires
        in_contract(*env),
        is_symbol(name@),
        instance_slots(*env).contains_key(name@) ==> instance_slots(*env)[name@] is Some,
    ensures
        r == (if instance_slots(*env).contains_key(name@) {
            instance_slots(*env)[name@]
        } else {
            None
        }),
{
    let key = (soroban_sdk::Symbol::new(env, name),);
    env.storage().instance().get::<_, u32>(&key)
}

/// Relies on `Symbol::new` and `Instance::set`: afterwards the key `(name,)`
/// holds `val`; no other entry and no event changes. `set` panics where no
/// contract is running.
#[verifier::external_body]
pub(crate) fn store_u32(env: &mut soroban_sdk::Env, name: &str, val: u32)
    requires
        in_contract(*old(env)),
        is_symbol(name@),
    ensures
        in_contract(*final(env)) == in_contract(*old(env)),
        instance_slots(*final(env)) == instance_slots(*old(env)).insert(name@, Some(val)),
        text_events(*final(env)) == text_events(*old(env)),
{
    let key = (soroban_sdk::Symbol::new(env, name),);
    env.storage().instance().set(&key, &val);
}

/// Relies on `Symbol::new` and `Events::publish`: one event with the topics
/// `(topic,)` and the string `data` is appended; storage does not change.
#[verifier::external_body]
#[allow(deprecated)]
pub(crate) fn publish_text(env: &mut soroban_sdk::Env, topic: &str, data: &str)
    requires
        is_symbol(topic@),
    ensures
        in_contract(*final(env)) == in_contract(*old(env)),
        text_events(*final(env)) == text_events(*old(env)).push((topic@, data@)),
        instance_slots(*final(env)) == instance_slots(*old(env)),
{
    let topics = (soroban_sdk::Symbol::new(env, topic),);
    env.events().publish(topics, data);
}

} // verus!

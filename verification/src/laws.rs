//! The laws of the state machine, stated over the spec transitions of
//! `contract` and proved once and for all. The executable entry points are
//! tied to these transitions by their own `ensures`.

use vstd::prelude::*;
use crate::contract::{next_store, spec_instantiate, spec_query, spec_set_greeting};
use crate::error::ContractError;
use crate::state::StateV;

verus! {

/// The recorded owner of a store that holds a record.
pub open spec fn owner_of(s: Option<StateV>) -> Seq<char>
    recommends
        s is Some,
{
    match s {
        Some(st) => st.owner,
        None => Seq::empty(),
    }
}

/// The store after one whole SetGreeting invocation: the rewritten record if
/// the caller was authorized, the old store on any failure.
pub open spec fn set_greeting_step(s: Option<StateV>, sender: Seq<char>, greeting: Seq<char>) -> Option<
    StateV,
> {
    next_store(s, spec_set_greeting(s, sender, greeting))
}

/// The store after a whole sequence of SetGreeting invocations, each a pair
/// of caller and requested greeting, applied in order.
pub open spec fn run_set_greetings(s: Option<StateV>, calls: Seq<(Seq<char>, Seq<char>)>) -> Option<
    StateV,
>
    decreases calls.len(),
{
    if calls.len() == 0 {
        s
    } else {
        run_set_greetings(set_greeting_step(s, calls[0].0, calls[0].1), calls.drop_first())
    }
}

/// Instantiating a fresh store and then querying: the query returns exactly
/// the greeting that was given, and the recorded owner is the caller.
pub proof fn law_instantiate_then_query(c: Seq<char>, g: Seq<char>)
    ensures
        spec_instantiate(None, c, g) == Ok::<StateV, ContractError>(StateV { greeting: g, owner: c }),
        spec_query(next_store(None, spec_instantiate(None, c, g))) == Ok::<Seq<char>, ContractError>(g),
        owner_of(next_store(None, spec_instantiate(None, c, g))) == c,
{
}

/// A SetGreeting by anyone but the owner fails Unauthorized, the store is
/// left untouched, and a subsequent query returns the greeting unchanged.
pub proof fn law_unauthorized_set_greeting(s: Option<StateV>, c: Seq<char>, g2: Seq<char>)
    requires
        s is Some,
        c != owner_of(s),
    ensures
        spec_set_greeting(s, c, g2) == Err::<StateV, ContractError>(ContractError::Unauthorized),
        set_greeting_step(s, c, g2) == s,
        spec_query(set_greeting_step(s, c, g2)) == spec_query(s),
{
}

/// A SetGreeting by the owner succeeds — for any greeting, the empty string
/// included — and a subsequent query returns the new greeting.
pub proof fn law_owner_set_greeting(s: Option<StateV>, g2: Seq<char>)
    requires
        s is Some,
    ensures
        spec_set_greeting(s, owner_of(s), g2) == Ok::<StateV, ContractError>(
            StateV { greeting: g2, owner: owner_of(s) },
        ),
        spec_query(set_greeting_step(s, owner_of(s), g2)) == Ok::<Seq<char>, ContractError>(g2),
        owner_of(set_greeting_step(s, owner_of(s), g2)) == owner_of(s),
{
}

/// The owner recorded at instantiation is invariant across any sequence of
/// SetGreeting invocations, successful or failed, and the record never
/// disappears.
pub proof fn law_owner_invariant(s: Option<StateV>, calls: Seq<(Seq<char>, Seq<char>)>)
    requires
        s is Some,
    ensures
        run_set_greetings(s, calls) is Some,
        owner_of(run_set_greetings(s, calls)) == owner_of(s),
    decreases calls.len(),
{
    if calls.len() > 0 {
        law_owner_invariant(set_greeting_step(s, calls[0].0, calls[0].1), calls.drop_first());
    }
}

/// Before any instantiation there is nothing to read: a query on an empty
/// store fails NotFound, and so does a SetGreeting.
pub proof fn law_uninitialized_not_found(c: Seq<char>, g: Seq<char>)
    ensures
        spec_query(None) == Err::<Seq<char>, ContractError>(ContractError::NotFound),
        spec_set_greeting(None, c, g) == Err::<StateV, ContractError>(ContractError::NotFound),
{
}

} // verus!

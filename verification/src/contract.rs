//! The entry points: creation, authorized mutation, and read access to the
//! single persisted record.
//!
//! Each entry point is one whole deterministic state transition, described by
//! a spec function over the store's model: on success the store holds the new
//! record, on any error it is left exactly as it was. The spec functions are
//! the state machine; the executable functions are proved to implement it.

use vstd::prelude::*;
use crate::error::ContractError;
use crate::msg::{ExecuteMsg, GreetResponse, InstantiateMsg, MessageInfo, QueryMsg};
use crate::response::{AttributeV, Response};
use crate::state::{State, StateStore, StateV};

verus! {

/// What Instantiate decides: on a store without a record it creates one with
/// the caller as owner; on a store that already holds one it fails, so that
/// re-instantiation can never silently replace an owner.
pub open spec fn spec_instantiate(s: Option<StateV>, sender: Seq<char>, greeting: Seq<char>) -> Result<
    StateV,
    ContractError,
> {
    match s {
        None => Ok(StateV { greeting, owner: sender }),
        Some(_) => Err(ContractError::AlreadyInitialized),
    }
}

/// What Execute(SetGreeting) decides: with no record it fails NotFound;
/// with a record it rewrites the greeting if and only if the caller is the
/// recorded owner, and the owner itself never changes.
pub open spec fn spec_set_greeting(s: Option<StateV>, sender: Seq<char>, greeting: Seq<char>) -> Result<
    StateV,
    ContractError,
> {
    match s {
        None => Err(ContractError::NotFound),
        Some(st) => if sender == st.owner {
            Ok(StateV { greeting, owner: st.owner })
        } else {
            Err(ContractError::Unauthorized)
        },
    }
}

/// What Query reads: the stored greeting, or NotFound before any record
/// exists. It never writes.
pub open spec fn spec_query(s: Option<StateV>) -> Result<Seq<char>, ContractError> {
    match s {
        Some(st) => Ok(st.greeting),
        None => Err(ContractError::NotFound),
    }
}

/// The store after a transition: the new record on success, untouched on any
/// error. Every invocation is all-or-nothing.
pub open spec fn next_store(s: Option<StateV>, outcome: Result<StateV, ContractError>) -> Option<
    StateV,
> {
    match outcome {
        Ok(st) => Some(st),
        Err(_) => s,
    }
}

/// The audit attributes a successful Instantiate emits.
pub open spec fn instantiate_attrs(owner: Seq<char>, greeting: Seq<char>) -> Seq<AttributeV> {
    seq![
        AttributeV { key: "method"@, value: "instantiate"@ },
        AttributeV { key: "owner"@, value: owner },
        AttributeV { key: "greeting"@, value: greeting },
    ]
}

/// The audit attributes a successful SetGreeting emits.
pub open spec fn reset_attrs() -> Seq<AttributeV> {
    seq![AttributeV { key: "method"@, value: "reset"@ }]
}

/// Creates the record `{greeting: msg.greeting, owner: caller}` and persists
/// it. Fails AlreadyInitialized, changing nothing, if a record exists.
pub fn instantiate(store: &mut StateStore, info: MessageInfo, msg: InstantiateMsg) -> (r: Result<
    Response,
    ContractError,
>)
    ensures
        final(store)@ == next_store(
            old(store)@,
            spec_instantiate(old(store)@, info.sender@, msg.greeting@),
        ),
        match (r, spec_instantiate(old(store)@, info.sender@, msg.greeting@)) {
            (Ok(resp), Ok(_)) => resp.attrs() == instantiate_attrs(info.sender@, msg.greeting@),
            (Err(e), Err(se)) => e == se,
            _ => false,
        },
{
    match store.load() {
        Some(_) => Err(ContractError::AlreadyInitialized),
        None => {
            let greeting = msg.greeting;
            let state = State { greeting: greeting.clone(), owner: info.sender.clone() };
            store.save(state);
            let resp = Response::new().add_attribute(
                "method".to_string(),
                "instantiate".to_string(),
            ).add_attribute("owner".to_string(), info.sender.id).add_attribute(
                "greeting".to_string(),
                greeting,
            );
            proof {
                assert(resp.attrs() =~= instantiate_attrs(info.sender@, msg.greeting@));
            }
            Ok(resp)
        },
    }
}

/// Dispatches an execute message to its handler. The union of execute
/// messages is closed, so the match is exhaustive: no variant can be
/// silently dropped.
pub fn execute(store: &mut StateStore, info: MessageInfo, msg: ExecuteMsg) -> (r: Result<
    Response,
    ContractError,
>)
    ensures
        msg matches ExecuteMsg::SetGreeting { greeting } ==> {
            &&& final(store)@ == next_store(
                old(store)@,
                spec_set_greeting(old(store)@, info.sender@, greeting@),
            )
            &&& match (r, spec_set_greeting(old(store)@, info.sender@, greeting@)) {
                (Ok(resp), Ok(_)) => resp.attrs() == reset_attrs(),
                (Err(e), Err(se)) => e == se,
                _ => false,
            }
        },
{
    match msg {
        ExecuteMsg::SetGreeting { greeting } => try_set_greeting(store, info, greeting),
    }
}

/// Rewrites the stored greeting if and only if the caller is the recorded
/// owner. On NotFound or Unauthorized the store is left untouched.
pub fn try_set_greeting(store: &mut StateStore, info: MessageInfo, greeting: String) -> (r: Result<
    Response,
    ContractError,
>)
    ensures
        final(store)@ == next_store(
            old(store)@,
            spec_set_greeting(old(store)@, info.sender@, greeting@),
        ),
        match (r, spec_set_greeting(old(store)@, info.sender@, greeting@)) {
            (Ok(resp), Ok(_)) => resp.attrs() == reset_attrs(),
            (Err(e), Err(se)) => e == se,
            _ => false,
        },
{
    match store.load() {
        None => Err(ContractError::NotFound),
        Some(state) => {
            if info.sender == state.owner {
                store.save(State { greeting, owner: state.owner });
                let resp = Response::new().add_attribute("method".to_string(), "reset".to_string());
                proof {
                    assert(resp.attrs() =~= reset_attrs());
                }
                Ok(resp)
            } else {
                Err(ContractError::Unauthorized)
            }
        },
    }
}

/// Dispatches a query message; performs no mutation and no authorization
/// check, so the answer is readable by any principal.
pub fn query(store: &StateStore, msg: QueryMsg) -> (r: Result<GreetResponse, ContractError>)
    ensures
        match (r, spec_query(store@)) {
            (Ok(resp), Ok(g)) => resp.greeting@ == g,
            (Err(e), Err(se)) => e == se,
            _ => false,
        },
{
    match msg {
        QueryMsg::Greet {} => query_greeting(store),
    }
}

/// Projects the stored record onto its greeting; the owner is not exposed.
fn query_greeting(store: &StateStore) -> (r: Result<GreetResponse, ContractError>)
    ensures
        match (r, spec_query(store@)) {
            (Ok(resp), Ok(g)) => resp.greeting@ == g,
            (Err(e), Err(se)) => e == se,
            _ => false,
        },
{
    match store.load() {
        Some(state) => Ok(GreetResponse { greeting: state.greeting }),
        None => Err(ContractError::NotFound),
    }
}

} // verus!

//! Entry-point messages and the query response.
//!
//! Execute and query inputs are closed tagged unions with one variant per
//! supported message kind, so dispatch over them is exhaustive by
//! construction: a new variant cannot be silently dropped.

use vstd::prelude::*;
use crate::state::Addr;

verus! {

/// The caller of an entry point, as the host hands it in. The host has
/// already authenticated the sender before this code runs.
pub struct MessageInfo {
    pub sender: Addr,
}

/// Input of Instantiate: the initial greeting text.
pub struct InstantiateMsg {
    pub greeting: String,
}

/// Input of Execute.
pub enum ExecuteMsg {
    SetGreeting { greeting: String },
}

/// Input of Query.
pub enum QueryMsg {
    Greet {},
}

/// What Query returns: the stored greeting, and nothing else. The owner is
/// deliberately not exposed here.
pub struct GreetResponse {
    pub greeting: String,
}

} // verus!

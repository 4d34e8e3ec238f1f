//! The persisted record and its single-slot store.

use vstd::prelude::*;

verus! {

/// Opaque, comparable identifier of a calling principal. Identity is
/// exact-match on the underlying text; no normalization happens here.
pub struct Addr {
    pub id: String,
}

impl View for Addr {
    type V = Seq<char>;

    open spec fn view(&self) -> Seq<char> {
        self.id@
    }
}

impl Addr {
    pub fn new(id: String) -> (r: Addr)
        ensures
            r@ == id@,
    {
        Addr { id }
    }
}

impl Clone for Addr {
    fn clone(&self) -> (r: Self)
        ensures
            r@ == self@,
    {
        Addr { id: self.id.clone() }
    }
}

impl PartialEq for Addr {
    fn eq(&self, other: &Addr) -> (r: bool) {
        self.id == other.id
    }
}

impl vstd::std_specs::cmp::PartialEqSpecImpl for Addr {
    open spec fn obeys_eq_spec() -> bool {
        true
    }

    open spec fn eq_spec(&self, other: &Addr) -> bool {
        self@ == other@
    }
}

/// Mathematical model of a record: what Query reads and what the
/// authorization check compares.
pub ghost struct StateV {
    pub greeting: Seq<char>,
    pub owner: Seq<char>,
}

/// The sole persisted record: a greeting and the principal that created it.
pub struct State {
    pub greeting: String,
    pub owner: Addr,
}

impl View for State {
    type V = StateV;

    open spec fn view(&self) -> StateV {
        StateV { greeting: self.greeting@, owner: self.owner@ }
    }
}

impl Clone for State {
    fn clone(&self) -> (r: Self)
        ensures
            r@ == self@,
    {
        State { greeting: self.greeting.clone(), owner: self.owner.clone() }
    }
}

/// Durable single-slot persistence for the record: pure storage, no policy.
/// One deployed instance owns exactly one store, empty until the record is
/// first saved.
pub struct StateStore {
    slot: Option<State>,
}

impl View for StateStore {
    type V = Option<StateV>;

    closed spec fn view(&self) -> Option<StateV> {
        match self.slot {
            Some(ref s) => Some(s@),
            None => None,
        }
    }
}

impl StateStore {
    /// A fresh store, as a newly deployed instance sees it: no record yet.
    pub fn new() -> (r: StateStore)
        ensures
            r@ is None,
    {
        StateStore { slot: None }
    }

    /// Reads the record, if one has been saved.
    pub fn load(&self) -> (r: Option<State>)
        ensures
            match r {
                Some(s) => self@ == Some(s@),
                None => self@ is None,
            },
    {
        match self.slot {
            Some(ref s) => Some(s.clone()),
            None => None,
        }
    }

    /// Replaces the slot's whole contents with the given record.
    pub fn save(&mut self, state: State)
        ensures
            final(self)@ == Some(state@),
    {
        self.slot = Some(state);
    }
}

} // verus!

//! Stored operation outcomes and the store that holds them, keyed by
//! correlation identifier.

use vstd::prelude::*;
use crate::json::{jval, JVal, JsonVal, deep_clone};

verus! {

/// The lifecycle stage of one invocation.
#[derive(Debug, Clone, Copy, PartialEq, Eq, Structural)]
pub enum Status {
    Pending,
    Completed,
    Failed,
}

/// The outcome of one invocation: a correlation identifier, the stage it
/// reached, and its payload or error message.
#[derive(Debug, PartialEq)]
pub struct OperationResponse {
    pub id: String,
    pub status: Status,
    pub result: Option<JsonVal>,
    pub error: Option<String>,
}

/// Mathematical model of a stored outcome.
pub struct RespV {
    pub id: Seq<char>,
    pub status: Status,
    pub result: Option<JVal>,
    pub error: Option<Seq<char>>,
}

impl View for OperationResponse {
    type V = RespV;

    open spec fn view(&self) -> RespV {
        RespV {
            id: self.id@,
            status: self.status,
            result: match self.result {
                Some(v) => Some(jval(v)),
                None => None,
            },
            error: match self.error {
                Some(e) => Some(e@),
                None => None,
            },
        }
    }
}

impl RespV {
    /// Exactly one of payload and error is present, and it agrees with the
    /// status; a pending outcome carries neither.
    pub open spec fn wf(self) -> bool {
        match self.status {
            Status::Pending => self.result is None && self.error is None,
            Status::Completed => self.result is Some && self.error is None,
            Status::Failed => self.result is None && self.error is Some,
        }
    }
}

impl OperationResponse {
    /// An exact copy.
    pub fn duplicate(&self) -> (r: Self)
        ensures
            r@ == self@,
    {
        OperationResponse {
            id: self.id.clone(),
            status: self.status,
            result: match &self.result {
                Some(v) => Some(deep_clone(v)),
                None => None,
            },
            error: match &self.error {
                Some(e) => Some(e.clone()),
                None => None,
            },
        }
    }
}

/// In-memory storage for operation outcomes: a mapping from correlation
/// identifier to outcome, with insert-or-overwrite, lookup, removal and
/// membership. Its model is the map of stored outcomes.
pub struct ResultStore {
    entries: vstd::hash_map::StringHashMap<OperationResponse>,
}

impl View for ResultStore {
    type V = Map<Seq<char>, RespV>;

    closed spec fn view(&self) -> Map<Seq<char>, RespV> {
        self.entries@.map_values(|r: OperationResponse| r@)
    }
}

impl ResultStore {
    /// An empty store.
    pub fn new() -> (r: Self)
        ensures
            r@ == Map::<Seq<char>, RespV>::empty(),
    {
        let entries = vstd::hash_map::StringHashMap::new();
        proof {
            assert(entries@.map_values(|r: OperationResponse| r@) =~= Map::<
                Seq<char>,
                RespV,
            >::empty());
        }
        ResultStore { entries }
    }

    /// Inserts the outcome under `id`, overwriting any prior entry.
    pub fn set(&mut self, id: String, response: OperationResponse)
        ensures
            final(self)@ == old(self)@.insert(id@, response@),
    {
        let ghost k = id@;
        self.entries.insert(id, response);
        proof {
            assert(self.entries@.map_values(|r: OperationResponse| r@) =~= old(self)@.insert(
                k,
                response@,
            ));
        }
    }

    /// A copy of the outcome stored under `id`, if any.
    pub fn get(&self, id: &str) -> (r: Option<OperationResponse>)
        ensures
            match r {
                Some(resp) => self@.contains_key(id@) && resp@ == self@[id@],
                None => !self@.contains_key(id@),
            },
    {
        match self.entries.get(id) {
            Some(resp) => Some(resp.duplicate()),
            None => None,
        }
    }

    /// Removes the outcome stored under `id` and returns it, if any.
    pub fn delete(&mut self, id: &str) -> (r: Option<OperationResponse>)
        ensures
            final(self)@ == old(self)@.remove(id@),
            match r {
                Some(resp) => old(self)@.contains_key(id@) && resp@ == old(self)@[id@],
                None => !old(self)@.contains_key(id@),
            },
    {
        let prior = self.get(id);
        self.entries.remove(id);
        proof {
            assert(self.entries@.map_values(|r: OperationResponse| r@) =~= old(self)@.remove(id@));
        }
        prior
    }

    /// Whether an outcome is stored under `id`.
    pub fn contains(&self, id: &str) -> (r: bool)
        ensures
            r == self@.contains_key(id@),
    {
        self.entries.contains_key(id)
    }
}

impl Default for ResultStore {
    fn default() -> (r: Self)
        ensures
            r@ == Map::<Seq<char>, RespV>::empty(),
    {
        Self::new()
    }
}

} // verus!

//! Per-user status records and the abstract status store the command layer
//! depends on. A relational or file backend lives outside this crate; here
//! the store is specified by the map of records it holds.

use std::collections::HashMap;
use vstd::prelude::*;

verus! {

broadcast use vstd::std_specs::hash::group_hash_axioms;

/// An user status: hit points, sanity and magic points.
#[derive(Clone, Copy, PartialEq, Eq, Structural, Debug)]
pub struct Status {
    pub hp: i16,
    pub san: i16,
    pub mp: i16,
}

pub open spec fn zero_status() -> Status {
    Status { hp: 0, san: 0, mp: 0 }
}

impl Default for Status {
    /// The all-zero record a user starts with.
    fn default() -> (r: Self)
        ensures
            r == zero_status(),
    {
        Status { hp: 0, san: 0, mp: 0 }
    }
}

/// The field of a status a parameter name denotes.
pub open spec fn spec_get_value(s: Status, name: Seq<char>) -> Result<i16, ()> {
    if name == "HP"@ {
        Ok(s.hp)
    } else if name == "SAN"@ {
        Ok(s.san)
    } else if name == "MP"@ {
        Ok(s.mp)
    } else {
        Err(())
    }
}

/// The record after assigning `value` to the named field; unchanged when the
/// name denotes no field.
pub open spec fn spec_update_value(s: Status, name: Seq<char>, value: i16) -> Status {
    if name == "HP"@ {
        Status { hp: value, ..s }
    } else if name == "SAN"@ {
        Status { san: value, ..s }
    } else if name == "MP"@ {
        Status { mp: value, ..s }
    } else {
        s
    }
}

impl Status {
    /// Gets the value of the field the name denotes.
    pub fn get_value(&self, name: &str) -> (r: Result<i16, ()>)
        ensures
            r == spec_get_value(*self, name@),
    {
        if crate::text::str_eq(name, "HP") {
            Ok(self.hp)
        } else if crate::text::str_eq(name, "SAN") {
            Ok(self.san)
        } else if crate::text::str_eq(name, "MP") {
            Ok(self.mp)
        } else {
            Err(())
        }
    }

    /// Assigns a value to the field the name denotes and returns the value
    /// it had before; an unknown name changes nothing.
    pub fn update_value(&mut self, name: &str, value: i16) -> (r: Result<i16, ()>)
        ensures
            *final(self) == spec_update_value(*old(self), name@, value),
            r == spec_get_value(*old(self), name@),
    {
        if crate::text::str_eq(name, "HP") {
            let before = self.hp;
            self.hp = value;
            Ok(before)
        } else if crate::text::str_eq(name, "SAN") {
            let before = self.san;
            self.san = value;
            Ok(before)
        } else if crate::text::str_eq(name, "MP") {
            let before = self.mp;
            self.mp = value;
            Ok(before)
        } else {
            Err(())
        }
    }
}

/// A failure of the store backend, carrying its display text.
#[derive(Debug)]
pub struct StoreError {
    pub message: String,
}

/// Represents a database for the bot: a key-value store of status records
/// keyed by user identifier, specified by the map of records it holds.
///
/// A struct that controls a database must implement this trait.
pub trait BotDatabase {
    /// Whether all of the store's features are ready.
    spec fn available(&self) -> bool;

    /// The records the store holds.
    spec fn snapshot(&self) -> Map<u64, Status>;

    /// Checks whether all of the features are ready.
    fn is_available(&self) -> (r: bool)
        ensures
            r == self.available(),
    ;

    /// Tries to get the status. If there is no record, it returns `None`.
    fn try_get_value(&self, id: u64) -> (r: Option<Status>)
        requires
            self.available(),
        ensures
            r == if self.snapshot().contains_key(id) {
                Some(self.snapshot()[id])
            } else {
                None::<Status>
            },
    ;

    /// Gets the status. If there is no record, it returns the default value.
    fn get_value(&self, id: u64) -> (r: Status)
        requires
            self.available(),
        ensures
            r == if self.snapshot().contains_key(id) {
                self.snapshot()[id]
            } else {
                zero_status()
            },
    ;

    /// Reflects the changes of the status: on success the store holds the
    /// whole record under the identifier; on failure it is unchanged.
    fn set_value(&mut self, id: u64, status: Status) -> (r: Result<(), StoreError>)
        requires
            old(self).available(),
        ensures
            final(self).available() == old(self).available(),
            r is Ok ==> final(self).snapshot() == old(self).snapshot().insert(id, status),
            r is Err ==> final(self).snapshot() == old(self).snapshot(),
    ;
}

/// What any store obeying `BotDatabase` guarantees across calls: after a
/// successful `set_value`, `get_value` for that identifier returns the very
/// record written, any other identifier is unaffected, and an identifier
/// never written still yields the all-zero default.
pub proof fn lemma_store_round_trip(m: Map<u64, Status>, id: u64, record: Status, other: u64)
    requires
        other != id,
    ensures
        m.insert(id, record).contains_key(id),
        m.insert(id, record)[id] == record,
        m.insert(id, record).contains_key(other) == m.contains_key(other),
        m.contains_key(other) ==> m.insert(id, record)[other] == m[other],
        !m.contains_key(other) ==> !m.insert(id, record).contains_key(other),
{
}

/// A database which contains nothing and is never available; commands that
/// depend on the store are not registered when only this one exists.
pub struct DummyDatabase;

impl BotDatabase for DummyDatabase {
    open spec fn available(&self) -> bool {
        false
    }

    open spec fn snapshot(&self) -> Map<u64, Status> {
        Map::empty()
    }

    fn is_available(&self) -> (r: bool) {
        false
    }

    fn try_get_value(&self, id: u64) -> (r: Option<Status>) {
        None
    }

    fn get_value(&self, id: u64) -> (r: Status) {
        Status { hp: 0, san: 0, mp: 0 }
    }

    fn set_value(&mut self, id: u64, status: Status) -> (r: Result<(), StoreError>) {
        Ok(())
    }
}

/// An in-memory store of status records, always available. It backs the
/// command layer when no relational backend is configured and never fails.
pub struct MemoryDatabase {
    records: HashMap<u64, Status>,
}

impl MemoryDatabase {
    /// An empty store.
    pub fn new() -> (r: Self)
        ensures
            r.available(),
            r.snapshot() == Map::<u64, Status>::empty(),
    {
        MemoryDatabase { records: HashMap::new() }
    }
}

impl BotDatabase for MemoryDatabase {
    open spec fn available(&self) -> bool {
        true
    }

    closed spec fn snapshot(&self) -> Map<u64, Status> {
        self.records@
    }

    fn is_available(&self) -> (r: bool) {
        true
    }

    fn try_get_value(&self, id: u64) -> (r: Option<Status>) {
        match self.records.get(&id) {
            Some(s) => Some(*s),
            None => None,
        }
    }

    fn get_value(&self, id: u64) -> (r: Status) {
        match self.records.get(&id) {
            Some(s) => Some(*s),
            None => None,
        }.unwrap_or(Status { hp: 0, san: 0, mp: 0 })
    }

    fn set_value(&mut self, id: u64, status: Status) -> (r: Result<(), StoreError>) {
        self.records.insert(id, status);
        Ok(())
    }
}

} // verus!

//! The persistence gateway, modelled: one table of records with a
//! store-assigned, auto-incrementing identifier.
//!
//! `MemStore` gives the five gateway operations exact contracts over a
//! spec-level state (`StoreV`) and its transition functions. The same
//! transition functions describe what the service as a whole does to the
//! store, and the laws about creating, updating and deleting records are
//! proved of them. An unverified front end may back the service with a
//! relational store instead; this model states the behaviour such a
//! backing is expected to have.

use vstd::prelude::*;
use crate::User;
use crate::UserV;

verus! {

/// Why a gateway operation failed: no row matched, or the store could
/// not perform the statement (here: it was never initialized, or it has
/// run out of identifiers).
#[derive(Clone, Copy, Debug, PartialEq, Eq)]
pub enum StoreError {
    NotFound,
    Unavailable,
}

/// The mathematical state of the store: the rows in store order, the
/// next identifier to assign, and whether the schema was initialized.
pub struct StoreV {
    pub rows: Seq<UserV>,
    pub next_id: int,
    pub ready: bool,
}

/// Every row carries an assigned identifier below `bound`.
pub open spec fn ids_in(rows: Seq<UserV>, bound: int) -> bool {
    forall|k: int| 0 <= k < rows.len() ==> {
        &&& (#[trigger] rows[k].id) is Some
        &&& 1 <= rows[k].id->0 < bound
    }
}

/// No two rows share an identifier.
pub open spec fn unique_ids(rows: Seq<UserV>) -> bool {
    forall|k1: int, k2: int|
        0 <= k1 < k2 < rows.len() ==> (#[trigger] rows[k1].id) != (#[trigger] rows[k2].id)
}

/// A well-formed store: identifiers are assigned, positive, unique, and
/// below the next one to hand out.
pub open spec fn store_wf(s: StoreV) -> bool {
    &&& 1 <= s.next_id <= 0x7fff_ffff
    &&& ids_in(s.rows, s.next_id)
    &&& unique_ids(s.rows)
}

/// The first row with the given identifier.
pub open spec fn spec_lookup(rows: Seq<UserV>, id: int) -> Option<UserV>
    decreases rows.len(),
{
    if rows.len() == 0 {
        None
    } else if rows[0].id == Some(id) {
        Some(rows[0])
    } else {
        spec_lookup(rows.skip(1), id)
    }
}

/// Every row with the identifier rewritten to the given fields; other
/// rows untouched.
pub open spec fn spec_update_rows(rows: Seq<UserV>, id: int, n: Seq<char>, e: Seq<char>) -> Seq<UserV> {
    rows.map_values(
        |r: UserV|
            if r.id == Some(id) {
                UserV { id: r.id, name: n, email: e }
            } else {
                r
            },
    )
}

/// The rows without those carrying the identifier, in their old order.
pub open spec fn spec_remove_rows(rows: Seq<UserV>, id: int) -> Seq<UserV>
    decreases rows.len(),
{
    if rows.len() == 0 {
        Seq::empty()
    } else if rows[0].id == Some(id) {
        spec_remove_rows(rows.skip(1), id)
    } else {
        seq![rows[0]] + spec_remove_rows(rows.skip(1), id)
    }
}

/// Initialization: marks the schema ready and touches nothing else.
pub open spec fn spec_init(s: StoreV) -> StoreV {
    StoreV { rows: s.rows, next_id: s.next_id, ready: true }
}

/// Insertion: appends a row under the next identifier.
pub open spec fn spec_insert(s: StoreV, n: Seq<char>, e: Seq<char>) -> StoreV {
    StoreV {
        rows: s.rows.push(UserV { id: Some(s.next_id), name: n, email: e }),
        next_id: s.next_id + 1,
        ready: s.ready,
    }
}

/// What `create_user` does: a new row on success; rejected when the
/// store is not ready or identifiers are exhausted.
pub open spec fn spec_create(s: StoreV, n: Seq<char>, e: Seq<char>) -> (StoreV, Result<(), StoreError>) {
    if !s.ready || s.next_id >= 0x7fff_ffff {
        (s, Err(StoreError::Unavailable))
    } else {
        (spec_insert(s, n, e), Ok(()))
    }
}

/// What `get_user` returns: the matching row, or which failure.
pub open spec fn spec_get_user(s: StoreV, id: int) -> Result<UserV, StoreError> {
    if !s.ready {
        Err(StoreError::Unavailable)
    } else {
        match spec_lookup(s.rows, id) {
            Some(u) => Ok(u),
            None => Err(StoreError::NotFound),
        }
    }
}

/// What `get_all_users` returns: every row in store order.
pub open spec fn spec_get_all(s: StoreV) -> Result<Seq<UserV>, StoreError> {
    if !s.ready {
        Err(StoreError::Unavailable)
    } else {
        Ok(s.rows)
    }
}

/// What `update_user` does: an unconditional update, succeeding even
/// when no row matches.
pub open spec fn spec_update(s: StoreV, id: int, n: Seq<char>, e: Seq<char>) -> (StoreV, Result<(), StoreError>) {
    if !s.ready {
        (s, Err(StoreError::Unavailable))
    } else {
        (StoreV { rows: spec_update_rows(s.rows, id, n, e), next_id: s.next_id, ready: s.ready }, Ok(()))
    }
}

/// What `delete_user` does: an unconditional delete, succeeding even
/// when no row matches.
pub open spec fn spec_delete(s: StoreV, id: int) -> (StoreV, Result<(), StoreError>) {
    if !s.ready {
        (s, Err(StoreError::Unavailable))
    } else {
        (StoreV { rows: spec_remove_rows(s.rows, id), next_id: s.next_id, ready: s.ready }, Ok(()))
    }
}

/// The view of a fetched row.
pub open spec fn user_res_view(r: Result<User, StoreError>) -> Result<UserV, StoreError> {
    match r {
        Ok(u) => Ok(u@),
        Err(e) => Err(e),
    }
}

/// The view of a fetched listing.
pub open spec fn list_res_view(r: Result<Vec<User>, StoreError>) -> Result<Seq<UserV>, StoreError> {
    match r {
        Ok(v) => Ok(v@.map_values(|u: User| u@)),
        Err(e) => Err(e),
    }
}

/// The in-memory store: rows in insertion order, the next identifier,
/// and the ready mark that initialization sets.
pub struct MemStore {
    rows: Vec<User>,
    next_id: i32,
    ready: bool,
}

impl View for MemStore {
    type V = StoreV;

    closed spec fn view(&self) -> StoreV {
        StoreV {
            rows: self.rows@.map_values(|u: User| u@),
            next_id: self.next_id as int,
            ready: self.ready,
        }
    }
}

impl MemStore {
    /// An empty store, not yet initialized; the first identifier to be
    /// assigned is one.
    pub fn new() -> (s: Self)
        ensures
            s@.rows == Seq::<UserV>::empty(),
            s@.next_id == 1,
            !s@.ready,
            store_wf(s@),
    {
        let s = MemStore { rows: Vec::new(), next_id: 1, ready: false };
        proof {
            assert(s@.rows =~= Seq::<UserV>::empty());
        }
        s
    }

    /// Ensures the table exists. Idempotent; on the model it cannot
    /// fail.
    pub fn init(&mut self) -> (r: Result<(), StoreError>)
        ensures
            final(self)@ == spec_init(old(self)@),
            r is Ok,
    {
        self.ready = true;
        Ok(())
    }

    /// Appends a row; the store assigns the identifier.
    pub fn create_user(&mut self, name: &str, email: &str) -> (r: Result<(), StoreError>)
        ensures
            final(self)@ == spec_create(old(self)@, name@, email@).0,
            r == spec_create(old(self)@, name@, email@).1,
    {
        if !self.ready || self.next_id >= 0x7fff_ffff {
            return Err(StoreError::Unavailable);
        }
        let row = User { id: Some(self.next_id), name: name.to_owned(), email: email.to_owned() };
        proof {
            assert(self@.rows.push(row@) =~= self@.rows.push(
                UserV { id: Some(self@.next_id), name: name@, email: email@ },
            ));
        }
        self.rows.push(row);
        self.next_id = self.next_id + 1;
        proof {
            assert(self@.rows =~= spec_insert(old(self)@, name@, email@).rows);
        }
        Ok(())
    }

    /// Fetches the row with the identifier; `NotFound` when none
    /// matches.
    #[verifier::loop_isolation(false)]
    pub fn get_user(&mut self, id: i32) -> (r: Result<User, StoreError>)
        ensures
            *final(self) == *old(self),
            user_res_view(r) == spec_get_user(old(self)@, id as int),
    {
        if !self.ready {
            return Err(StoreError::Unavailable);
        }
        let ghost rv: Seq<UserV> = self@.rows;
        let mut k: usize = 0;
        proof {
            assert(rv.skip(0) =~= rv);
        }
        while k < self.rows.len()
            invariant
                k <= self.rows@.len(),
                rv == self@.rows,
                *self == *old(self),
                spec_lookup(rv, id as int) == spec_lookup(rv.skip(k as int), id as int),
            decreases self.rows@.len() - k,
        {
            let hit: bool = match self.rows[k].id {
                Some(v) => v == id,
                None => false,
            };
            proof {
                assert(rv.skip(k as int)[0] == rv[k as int]);
                assert(rv.skip(k as int).skip(1) =~= rv.skip(k as int + 1));
            }
            if hit {
                let row = &self.rows[k];
                let copy = User { id: row.id, name: row.name.clone(), email: row.email.clone() };
                proof {
                    assert(copy@ == rv[k as int]);
                    assert(rv[k as int].id == Some(id as int));
                    assert(spec_lookup(rv.skip(k as int), id as int) == Some(rv[k as int]));
                    assert(spec_get_user(old(self)@, id as int) == Ok::<UserV, StoreError>(rv[k as int]));
                }
                return Ok(copy);
            }
            k = k + 1;
        }
        proof {
            assert(rv.skip(rv.len() as int) =~= Seq::<UserV>::empty());
        }
        Err(StoreError::NotFound)
    }

    /// Fetches every row, in store order.
    #[verifier::loop_isolation(false)]
    pub fn get_all_users(&mut self) -> (r: Result<Vec<User>, StoreError>)
        ensures
            *final(self) == *old(self),
            list_res_view(r) == spec_get_all(old(self)@),
    {
        if !self.ready {
            return Err(StoreError::Unavailable);
        }
        let mut out: Vec<User> = Vec::new();
        let mut k: usize = 0;
        proof {
            assert(out@.map_values(|u: User| u@) =~= self@.rows.subrange(0, 0));
        }
        while k < self.rows.len()
            invariant
                k <= self.rows@.len(),
                *self == *old(self),
                out@.map_values(|u: User| u@) =~= self@.rows.subrange(0, k as int),
            decreases self.rows@.len() - k,
        {
            let row = &self.rows[k];
            let ghost prev: Seq<UserV> = out@.map_values(|u: User| u@);
            let copy = User { id: row.id, name: row.name.clone(), email: row.email.clone() };
            proof {
                assert(copy@ == self@.rows[k as int]);
            }
            out.push(copy);
            k = k + 1;
            proof {
                assert(out@.map_values(|u: User| u@) =~= prev.push(self@.rows[k as int - 1]));
                assert(out@.map_values(|u: User| u@) =~= self@.rows.subrange(0, k as int));
            }
        }
        proof {
            assert(self@.rows.subrange(0, self.rows@.len() as int) =~= self@.rows);
        }
        Ok(out)
    }

    /// Overwrites name and email of the matching row; a miss is not an
    /// error, mirroring an unconditional update statement.
    #[verifier::loop_isolation(false)]
    pub fn update_user(&mut self, id: i32, name: &str, email: &str) -> (r: Result<(), StoreError>)
        ensures
            final(self)@ == spec_update(old(self)@, id as int, name@, email@).0,
            r == spec_update(old(self)@, id as int, name@, email@).1,
    {
        if !self.ready {
            return Err(StoreError::Unavailable);
        }
        let ghost rv: Seq<UserV> = self@.rows;
        let ghost target: Seq<UserV> = spec_update_rows(rv, id as int, name@, email@);
        let mut out: Vec<User> = Vec::new();
        let mut k: usize = 0;
        while k < self.rows.len()
            invariant
                k <= self.rows@.len(),
                *self == *old(self),
                rv == self@.rows,
                target == spec_update_rows(rv, id as int, name@, email@),
                out@.map_values(|u: User| u@) =~= target.subrange(0, k as int),
            decreases self.rows@.len() - k,
        {
            let row = &self.rows[k];
            let hit: bool = match row.id {
                Some(v) => v == id,
                None => false,
            };
            let ghost prev: Seq<UserV> = out@.map_values(|u: User| u@);
            if hit {
                let copy = User { id: row.id, name: name.to_owned(), email: email.to_owned() };
                proof {
                    assert(copy@ == target[k as int]);
                }
                out.push(copy);
            } else {
                let copy = User { id: row.id, name: row.name.clone(), email: row.email.clone() };
                proof {
                    assert(copy@ == target[k as int]);
                }
                out.push(copy);
            }
            k = k + 1;
            proof {
                assert(out@.map_values(|u: User| u@) =~= prev.push(target[k as int - 1]));
                assert(out@.map_values(|u: User| u@) =~= target.subrange(0, k as int));
            }
        }
        proof {
            assert(target.subrange(0, self.rows@.len() as int) =~= target);
        }
        self.rows = out;
        Ok(())
    }

    /// Removes the matching row; a miss is not an error, mirroring an
    /// unconditional delete statement.
    #[verifier::loop_isolation(false)]
    pub fn delete_user(&mut self, id: i32) -> (r: Result<(), StoreError>)
        ensures
            final(self)@ == spec_delete(old(self)@, id as int).0,
            r == spec_delete(old(self)@, id as int).1,
    {
        if !self.ready {
            return Err(StoreError::Unavailable);
        }
        let ghost rv: Seq<UserV> = self@.rows;
        let mut out: Vec<User> = Vec::new();
        let mut k: usize = 0;
        proof {
            assert(rv.skip(0) =~= rv);
            assert(out@.map_values(|u: User| u@) =~= Seq::<UserV>::empty());
            assert(Seq::<UserV>::empty() + rv =~= rv);
        }
        while k < self.rows.len()
            invariant
                k <= self.rows@.len(),
                *self == *old(self),
                rv == self@.rows,
                spec_remove_rows(rv, id as int) == out@.map_values(|u: User| u@)
                    + spec_remove_rows(rv.skip(k as int), id as int),
            decreases self.rows@.len() - k,
        {
            let row = &self.rows[k];
            let hit: bool = match row.id {
                Some(v) => v == id,
                None => false,
            };
            proof {
                assert(rv.skip(k as int)[0] == rv[k as int]);
                assert(rv.skip(k as int).skip(1) =~= rv.skip(k as int + 1));
            }
            if !hit {
                let ghost prev: Seq<UserV> = out@.map_values(|u: User| u@);
                out.push(User { id: row.id, name: row.name.clone(), email: row.email.clone() });
                proof {
                    let tail = spec_remove_rows(rv.skip(k as int + 1), id as int);
                    assert(out@.map_values(|u: User| u@) =~= prev.push(rv[k as int]));
                    assert(prev + (seq![rv[k as int]] + tail) =~= prev.push(rv[k as int]) + tail);
                }
            }
            k = k + 1;
        }
        proof {
            assert(rv.skip(rv.len() as int) =~= Seq::<UserV>::empty());
            assert(out@.map_values(|u: User| u@) + Seq::<UserV>::empty() =~= out@.map_values(
                |u: User| u@,
            ));
        }
        self.rows = out;
        Ok(())
    }
}

} // verus!

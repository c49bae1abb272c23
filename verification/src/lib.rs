//! A small record-management service, verified.
//!
//! The library holds everything that can be reasoned about without touching
//! the network: parsing an HTTP-style request into a routed operation,
//! parsing and rendering the JSON record bodies, the route table, the
//! mapping from store outcomes to responses, and an in-memory store that
//! gives the five gateway operations (initialize, insert, fetch-by-id,
//! fetch-all, update-by-id, delete-by-id) exact contracts. A thin
//! unverified front end owns the sockets and the relational store and
//! drives the verified logic with plain values.

use vstd::prelude::*;

pub mod dispatch;
pub mod handler;
pub mod http;
pub mod json;
pub mod store;
pub mod laws;
pub mod num;
pub mod text;

verus! {

/// The one persisted entity: a user record. `id` is absent until the store
/// assigns it; `name` and `email` carry no enforced invariant beyond
/// presence.
pub struct User {
    pub id: Option<i32>,
    pub name: String,
    pub email: String,
}

/// The mathematical value of a `User`: the identifier as an unbounded
/// integer and the two text fields as character sequences.
pub struct UserV {
    pub id: Option<int>,
    pub name: Seq<char>,
    pub email: Seq<char>,
}

impl View for User {
    type V = UserV;

    open spec fn view(&self) -> UserV {
        UserV {
            id: match self.id {
                Some(n) => Some(n as int),
                None => None,
            },
            name: self.name@,
            email: self.email@,
        }
    }
}

} // verus!

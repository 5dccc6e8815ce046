//! The rules of XETA, a messaging server: who may register, log in and be
//! found, which conversation a message belongs to, who may read it, and which
//! images are stored.
//!
//! A handler that has to wait for the database, for the body of a request or
//! for the disk is a chain of small states. Each state says what it waits for
//! (a [`query::Query`], a file to write) and its `resume` takes the answer and
//! gives the next state, or the reply. A state can only be had from the one
//! before it.

use vstd::prelude::*;

pub mod account_laws;
pub mod accounts;
pub mod auth;
pub mod histories;
pub mod laws;
pub mod messages;
pub mod model;
pub mod password;
pub mod query;
pub mod query_laws;
pub mod reply;
pub mod request_laws;
pub mod tables;
pub mod text;
pub mod token;
pub mod uploads;
pub mod users;
pub mod uuids;

verus! {

/// The greeting of the root route.
pub fn hello() -> (greeting: &'static str)
    ensures
        greeting@ == "Welcome to XETA"@,
{
    "Welcome to XETA"
}

} // verus!

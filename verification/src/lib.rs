//! Core of a small file-storage service: clients upload a blob and get back a
//! generated identifier; the blob and its metadata can later be fetched by
//! that identifier.  This crate holds the verified logic — admission of a save
//! request, identifier generation, the chunked write plan, completion and
//! rollback decisions, and the read-side replies — while the surrounding
//! process supplies the HTTP transport, the blob files and the database rows.

pub mod auth;
pub mod disposition;
pub mod ident;
pub mod laws;
pub mod record;
pub mod retrieval;
pub mod upload;

use vstd::prelude::*;

verus! {

/// Body of the fixed liveness reply served at the service root.
pub fn liveness_reply() -> (r: String)
    ensures
        r@ == "Pong!"@,
{
    String::from_str("Pong!")
}

} // verus!

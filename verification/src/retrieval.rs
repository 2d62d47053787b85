//! The read side: decide the reply of a metadata lookup and of a blob
//! download from what the stores returned.  Reads never mutate anything, so
//! equal lookup results always map to equal replies.

use vstd::prelude::*;
use crate::record::FileRecord;

verus! {

/// Reply of a metadata lookup.
pub enum InfoReply {
    /// The record to report.
    Found(FileRecord),
    /// No record under that identifier: report not-found.
    Missing,
}

pub open spec fn spec_info_reply(rec: Option<FileRecord>) -> InfoReply {
    match rec {
        Some(r) => InfoReply::Found(r),
        None => InfoReply::Missing,
    }
}

/// Decide the metadata endpoint's reply from the store's lookup result.
pub fn info_reply(rec: Option<FileRecord>) -> (r: InfoReply)
    ensures
        r == spec_info_reply(rec),
{
    match rec {
        Some(r) => InfoReply::Found(r),
        None => InfoReply::Missing,
    }
}

/// Reply of a blob download.
pub enum GetReply {
    /// Open the blob stored under `id` and serve it as an attachment whose
    /// suggested filename is the record's display name.
    Fetch { id: String, filename: String },
    /// No record under that identifier: report not-found.
    Missing,
}

pub open spec fn spec_get_reply(rec: Option<FileRecord>) -> GetReply {
    match rec {
        Some(r) => GetReply::Fetch { id: r.id, filename: r.name },
        None => GetReply::Missing,
    }
}

/// Decide the download endpoint's reply from the store's lookup result.
pub fn get_reply(rec: Option<FileRecord>) -> (r: GetReply)
    ensures
        r == spec_get_reply(rec),
{
    match rec {
        Some(r) => GetReply::Fetch { id: r.id, filename: r.name },
        None => GetReply::Missing,
    }
}

/// Outcome of opening the blob a `Fetch` reply names.
pub enum BlobOutcome {
    /// Stream the bytes, suggesting `filename`.
    Stream { filename: String },
    /// Metadata exists but the blob is gone: an internal fault, not a
    /// not-found.
    Fault,
}

/// Decide what a download does once the blob store answered the open.
pub fn blob_outcome(opened: bool, filename: String) -> (r: BlobOutcome)
    ensures
        opened ==> r == (BlobOutcome::Stream { filename }),
        !opened ==> r == BlobOutcome::Fault,
{
    if opened {
        BlobOutcome::Stream { filename }
    } else {
        BlobOutcome::Fault
    }
}

} // verus!

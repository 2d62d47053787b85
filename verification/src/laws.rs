//! The service-level guarantees, stated over the pipeline's own
//! specifications and proved once and for all.

use vstd::prelude::*;
use crate::auth;
use crate::ident;
use crate::record::FileRecord;
use crate::retrieval;
use crate::upload;
use crate::upload::{SaveError, SaveStep};

verus! {

/// A fully streamed upload with a non-empty body is stored: the record
/// carries a well-formed identifier, the upload's own display name, the exact
/// byte count and the captured time, and a metadata lookup that returns that
/// record reports exactly it.
pub proof fn lemma_save_then_info(u: upload::Upload, created: Option<i64>)
    requires
        u.wf(),
        0 < u.total,
    ensures
        (match u.spec_finish(created) {
            SaveStep::Store(rec) => {
                &&& ident::valid_id(rec.id@)
                &&& rec.name == u.name
                &&& rec.size == u.total
                &&& rec.created == created
                &&& retrieval::spec_info_reply(Some(rec)) == retrieval::InfoReply::Found(rec)
            },
            SaveStep::Discard(_) => false,
        }),
{
}

/// An upload whose body held no bytes is rejected: its blob is discarded with
/// the empty-body error, and no record is produced.
pub proof fn lemma_empty_upload_discarded(u: upload::Upload, created: Option<i64>)
    requires
        u.total == 0,
    ensures
        u.spec_finish(created) == SaveStep::Discard(SaveError::EmptyBody),
        forall|rec: FileRecord| u.spec_finish(created) != SaveStep::Store(rec),
{
}

/// A request that resolves no display name — no query value, and no filename
/// parsed from the header — is refused at admission, before any identifier,
/// blob or record comes into being.
pub proof fn lemma_missing_name_rejected(
    secret: Seq<char>,
    auth_header: Option<Seq<char>>,
    disp_header: Option<Seq<char>>,
)
    requires
        auth::auth_ok(secret, auth_header),
        (match disp_header {
            Some(h) => crate::disposition::parsed_filename(h) == None::<Seq<char>>,
            None => true,
        }),
    ensures
        upload::admission(secret, auth_header, None, disp_header) == Err::<
            Seq<char>,
            SaveError,
        >(SaveError::NameMissing),
{
}

/// Without a valid credential the pipeline refuses the request outright,
/// whatever name or body it carries.
pub proof fn lemma_unauthorized_rejected(
    secret: Seq<char>,
    auth_header: Option<Seq<char>>,
    query: Option<Seq<char>>,
    disp_header: Option<Seq<char>>,
)
    requires
        !auth::auth_ok(secret, auth_header),
    ensures
        upload::admission(secret, auth_header, query, disp_header) == Err::<
            Seq<char>,
            SaveError,
        >(SaveError::Unauthorized),
{
}

/// The write plan hands the blob store bounded chunks that tile the body:
/// each chunk starts where the last one ended, holds at least one byte and at
/// most `CHUNK_SIZE`, and the plan is empty exactly when every byte of the
/// body has been written.
pub proof fn lemma_write_plan_tiles_body(u: upload::Upload)
    requires
        u.wf(),
    ensures
        u.spec_next_chunk() is None <==> u.written == u.total,
        (match u.spec_next_chunk() {
            Some(c) => u.written == c.0 && c.0 < c.1 <= u.total && c.1 - c.0
                <= upload::CHUNK_SIZE,
            None => true,
        }),
{
}

/// Reads are idempotent: two lookups that observe the same stored state map
/// to the same replies, for the metadata endpoint and the download alike.
pub proof fn lemma_reads_idempotent(a: Option<FileRecord>, b: Option<FileRecord>)
    requires
        a == b,
    ensures
        retrieval::spec_info_reply(a) == retrieval::spec_info_reply(b),
        retrieval::spec_get_reply(a) == retrieval::spec_get_reply(b),
{
}

/// A download of an unknown identifier reports not-found; one of a stored
/// record fetches the blob under the record's own identifier and attaches the
/// record's display name.
pub proof fn lemma_get_reply_exact(rec: Option<FileRecord>)
    ensures
        (match rec {
            None => retrieval::spec_get_reply(rec) == retrieval::GetReply::Missing,
            Some(r) => retrieval::spec_get_reply(rec) == (retrieval::GetReply::Fetch {
                id: r.id,
                filename: r.name,
            }),
        }),
{
}

} // verus!

//! The upload pipeline: screen a save request (credential, then display name),
//! open an upload under a fresh identifier, plan the chunked writes into the
//! blob store, and on completion either reject (discarding the blob) or
//! produce the record to insert.  The surrounding process performs the writes
//! and feeds their outcomes back.

use vstd::prelude::*;
use crate::auth;
use crate::disposition;
use crate::ident;
use crate::record::FileRecord;

verus! {

/// Size in bytes of one write chunk handed to the blob store.
pub const CHUNK_SIZE: usize = 32 * 1024;

/// Why a save request was refused.
#[derive(Debug, PartialEq, Eq, Structural)]
pub enum SaveError {
    /// Credential header missing or mismatched.
    Unauthorized,
    /// No name in the query and none parsed from the header.
    NameMissing,
    /// The resolved name is the empty string.
    NameEmpty,
    /// The body held no bytes.
    EmptyBody,
    /// Writing the blob failed part way; the partial blob is discarded.
    WriteFailed,
    /// The metadata insert failed after the blob was written.
    RecordFailed,
}

impl SaveError {
    /// The HTTP status each refusal is surfaced as.
    pub open spec fn spec_status(self) -> u16 {
        match self {
            SaveError::Unauthorized => 401,
            SaveError::RecordFailed => 500,
            _ => 400,
        }
    }

    pub fn status(&self) -> (s: u16)
        ensures
            s == self.spec_status(),
    {
        match self {
            SaveError::Unauthorized => 401,
            SaveError::RecordFailed => 500,
            _ => 400,
        }
    }

    /// The short plain-text reason each refusal is reported with.
    pub open spec fn spec_message(self) -> Seq<char> {
        match self {
            SaveError::Unauthorized => "unauthorized"@,
            SaveError::NameMissing => "file name not provided"@,
            SaveError::NameEmpty => "file name is empty"@,
            SaveError::EmptyBody => "file is empty"@,
            SaveError::WriteFailed => "failed to save file"@,
            SaveError::RecordFailed => "failed to store file record"@,
        }
    }

    pub fn message(&self) -> (m: &'static str)
        ensures
            m@ == self.spec_message(),
    {
        match self {
            SaveError::Unauthorized => "unauthorized",
            SaveError::NameMissing => "file name not provided",
            SaveError::NameEmpty => "file name is empty",
            SaveError::EmptyBody => "file is empty",
            SaveError::WriteFailed => "failed to save file",
            SaveError::RecordFailed => "failed to store file record",
        }
    }
}

/// The view of an optional owned name.
pub open spec fn name_of(o: Option<String>) -> Option<Seq<char>> {
    match o {
        Some(s) => Some(s@),
        None => None,
    }
}

/// The display name a request resolves to: the explicit query value when one
/// is given, else the filename parsed from the header.
pub open spec fn resolved_name(query: Option<Seq<char>>, header: Option<Seq<char>>) -> Option<
    Seq<char>,
> {
    match query {
        Some(q) => Some(q),
        None => match header {
            Some(h) => disposition::parsed_filename(h),
            None => None,
        },
    }
}

/// Screening of a save request: the credential is checked first, then the
/// name must resolve and be non-empty.
pub open spec fn admission(
    secret: Seq<char>,
    auth_header: Option<Seq<char>>,
    query: Option<Seq<char>>,
    disp_header: Option<Seq<char>>,
) -> Result<Seq<char>, SaveError> {
    if !auth::auth_ok(secret, auth_header) {
        Err(SaveError::Unauthorized)
    } else {
        match resolved_name(query, disp_header) {
            None => Err(SaveError::NameMissing),
            Some(n) => if n.len() == 0 {
                Err(SaveError::NameEmpty)
            } else {
                Ok(n)
            },
        }
    }
}

/// Screen a save request: check the credential, then resolve the display name.
pub fn resolve_request(
    secret: &str,
    auth_header: Option<&str>,
    query: Option<String>,
    disp_header: Option<&str>,
) -> (r: Result<String, SaveError>)
    ensures
        (match r {
            Ok(n) => admission(
                secret@,
                auth::text_of(auth_header),
                name_of(query),
                auth::text_of(disp_header),
            ) == Ok::<Seq<char>, SaveError>(n@),
            Err(e) => admission(
                secret@,
                auth::text_of(auth_header),
                name_of(query),
                auth::text_of(disp_header),
            ) == Err::<Seq<char>, SaveError>(e),
        }),
{
    if !auth::check_auth(secret, auth_header) {
        return Err(SaveError::Unauthorized);
    }
    let name = match query {
        Some(q) => q,
        None => match disp_header {
            None => {
                return Err(SaveError::NameMissing);
            },
            Some(h) => match disposition::get_filename(h) {
                None => {
                    return Err(SaveError::NameMissing);
                },
                Some(n) => n,
            },
        },
    };
    if name.as_str().unicode_len() == 0 {
        return Err(SaveError::NameEmpty);
    }
    Ok(name)
}

/// One in-flight upload: the correlation identifier, the resolved display
/// name, the body length, and how many bytes have reached the blob store.
pub struct Upload {
    pub id: String,
    pub name: String,
    pub total: usize,
    pub written: usize,
}

/// What the pipeline does once streaming ends or fails.
pub enum SaveStep {
    /// Keep the blob and insert this record.
    Store(FileRecord),
    /// Remove the blob and answer with this error.
    Discard(SaveError),
}

impl Upload {
    /// The identifier is well formed, the name non-empty, and no more bytes
    /// written than the body holds.
    pub open spec fn wf(self) -> bool {
        &&& ident::valid_id(self.id@)
        &&& self.name@.len() > 0
        &&& self.written <= self.total
    }

    /// Screen a save request and, when it is accepted, open an upload under a
    /// freshly generated identifier with nothing written yet.
    pub fn begin(
        secret: &str,
        auth_header: Option<&str>,
        query: Option<String>,
        disp_header: Option<&str>,
        body_len: usize,
    ) -> (r: Result<Upload, SaveError>)
        ensures
            (match r {
                Ok(u) => {
                    &&& admission(
                        secret@,
                        auth::text_of(auth_header),
                        name_of(query),
                        auth::text_of(disp_header),
                    ) == Ok::<Seq<char>, SaveError>(u.name@)
                    &&& u.wf()
                    &&& u.written == 0
                    &&& u.total == body_len
                },
                Err(e) => admission(
                    secret@,
                    auth::text_of(auth_header),
                    name_of(query),
                    auth::text_of(disp_header),
                ) == Err::<Seq<char>, SaveError>(e),
            }),
    {
        match resolve_request(secret, auth_header, query, disp_header) {
            Err(e) => Err(e),
            Ok(name) => Ok(
                Upload { id: ident::generate(), name, total: body_len, written: 0 },
            ),
        }
    }

    /// The half-open range of body bytes to hand to the blob store next,
    /// `None` once the whole body has been written.
    pub open spec fn spec_next_chunk(self) -> Option<(usize, usize)> {
        if self.written == self.total {
            None
        } else if self.total - self.written < CHUNK_SIZE {
            Some((self.written, self.total))
        } else {
            Some((self.written, (self.written + CHUNK_SIZE) as usize))
        }
    }

    pub fn next_chunk(&self) -> (r: Option<(usize, usize)>)
        requires
            self.wf(),
        ensures
            r == self.spec_next_chunk(),
            r is None <==> self.written == self.total,
            (match r {
                Some(c) => self.written == c.0 && c.0 < c.1 <= self.total && c.1 - c.0
                    <= CHUNK_SIZE,
                None => true,
            }),
    {
        if self.written == self.total {
            None
        } else if self.total - self.written < CHUNK_SIZE {
            Some((self.written, self.total))
        } else {
            Some((self.written, self.written + CHUNK_SIZE))
        }
    }

    /// Record that the bytes of the pending chunk reached the blob store.
    pub fn advance(&mut self)
        requires
            old(self).wf(),
            old(self).written < old(self).total,
        ensures
            final(self).wf(),
            final(self).id == old(self).id,
            final(self).name == old(self).name,
            final(self).total == old(self).total,
            Some((old(self).written, final(self).written)) == old(self).spec_next_chunk(),
    {
        if self.total - self.written < CHUNK_SIZE {
            self.written = self.total;
        } else {
            self.written = self.written + CHUNK_SIZE;
        }
    }

    /// Completion of a fully streamed upload: an empty body is rejected and
    /// its blob discarded; otherwise the record to insert is produced.
    pub open spec fn spec_finish(self, created: Option<i64>) -> SaveStep {
        if self.total == 0 {
            SaveStep::Discard(SaveError::EmptyBody)
        } else {
            SaveStep::Store(
                FileRecord {
                    id: self.id,
                    name: self.name,
                    size: self.total as u64,
                    created,
                },
            )
        }
    }

    /// Close a fully streamed upload.
    pub fn finish(self, created: Option<i64>) -> (r: SaveStep)
        requires
            self.wf(),
            self.written == self.total,
        ensures
            r == self.spec_finish(created),
            (match r {
                SaveStep::Store(rec) => {
                    &&& rec.wf()
                    &&& rec.id == self.id
                    &&& rec.name == self.name
                    &&& rec.size == self.total
                    &&& rec.created == created
                },
                SaveStep::Discard(e) => self.total == 0 && e == SaveError::EmptyBody,
            }),
    {
        if self.total == 0 {
            SaveStep::Discard(SaveError::EmptyBody)
        } else {
            SaveStep::Store(
                FileRecord { id: self.id, name: self.name, size: self.total as u64, created },
            )
        }
    }

    /// A write into the blob store failed part way: discard the partial blob
    /// and report the failure.
    pub fn fail(self) -> (r: SaveStep)
        ensures
            r == SaveStep::Discard(SaveError::WriteFailed),
    {
        SaveStep::Discard(SaveError::WriteFailed)
    }
}

} // verus!

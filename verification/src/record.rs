//! The persisted data model: one `FileRecord` per stored blob, plus the two
//! plain request/configuration shapes the surrounding process fills in.

use vstd::prelude::*;

verus! {

/// Metadata describing one stored blob.  A record exists exactly when a blob
/// of `size` bytes is stored under `id`; both are immutable once created.
pub struct FileRecord {
    /// Generated identifier, the primary key.
    pub id: String,
    /// Display name supplied by the uploader; not unique.
    pub name: String,
    /// Exact byte count of the stored blob.
    pub size: u64,
    /// Seconds since the epoch at creation; absent when the clock read failed.
    pub created: Option<i64>,
}

impl FileRecord {
    /// A record is well formed when its identifier is one the generator could
    /// have produced and its display name is non-empty.
    pub open spec fn wf(self) -> bool {
        crate::ident::valid_id(self.id@) && self.name@.len() > 0
    }
}

impl Clone for FileRecord {
    fn clone(&self) -> (r: Self)
        ensures
            r == *self,
    {
        FileRecord {
            id: self.id.clone(),
            name: self.name.clone(),
            size: self.size,
            created: self.created,
        }
    }
}

/// The query string accepted by the save endpoint: an optional explicit
/// display name, preferred over any name parsed from a header.
pub struct SaveFileQuery {
    pub name: Option<String>,
}

/// Process configuration, filled in by the surrounding process from its
/// environment: where the metadata lives, where to listen, the largest
/// accepted upload, and the shared write secret.
#[allow(non_snake_case)]
pub struct Config {
    pub DATABASE_URI: String,
    pub PORT: u16,
    pub MAX_FILE_SIZE: usize,
    pub PRIVATE_TOKEN: String,
}

} // verus!

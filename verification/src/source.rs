//! Readers of the database format (the `maxminddb` crate) over bytes in
//! memory or over a memory-mapped file, and the database opened on one.

use vstd::prelude::*;
use std::sync::Arc;
use crate::database::Database;
use crate::error::{error_is, open_failure_error, open_failure_text, ErrorKind, ReaderError};
use crate::metadata::{Metadata, MetadataRecord, MetadataView};

verus! {

/// The `maxminddb` reader over bytes held in memory.
#[verifier::external_body]
pub struct MemoryReader {
    pub inner: maxminddb::Reader<Vec<u8>>,
}

/// The `maxminddb` reader over a memory-mapped file.
#[verifier::external_body]
pub struct MappedReader {
    pub inner: maxminddb::Reader<memmap2::Mmap>,
}

/// The reader of an opened database.
pub enum ReaderSource {
    Mapped(MappedReader),
    Memory(MemoryReader),
}

/// The outcome of opening the database at `path` when the reader of the
/// format gave `read` (its reader and the metadata it read, or nothing when
/// it refused the bytes).
pub open spec fn opened_as(
    r: Result<Database<Arc<ReaderSource>>, ReaderError>,
    path: Seq<char>,
    read: Option<(ReaderSource, MetadataView)>,
) -> bool {
    match read {
        None => r matches Err(e) && error_is(e, ErrorKind::InvalidDatabase, open_failure_text(path)),
        Some((source, m)) => r matches Ok(d) && d.is_open() && d.meta()@ == m && *d.reader()
            == source,
    }
}

/// Opens the database at `path` on what the reader of the format gave for
/// its bytes: a refusal is an `InvalidDatabaseError` naming the path.
pub fn open_source(path: &str, read: Option<(ReaderSource, MetadataRecord)>) -> (r: Result<
    Database<Arc<ReaderSource>>,
    ReaderError,
>)
    ensures
        opened_as(
            r,
            path@,
            match read {
                None => None,
                Some((s, m)) => Some((s, m@)),
            },
        ),
{
    match read {
        None => Err(open_failure_error(path)),
        Some((source, record)) => {
            let metadata = Metadata::from_record(record);
            Ok(Database::new(Arc::new(source), metadata))
        },
    }
}

} // verus!

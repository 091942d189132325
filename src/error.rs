//! Errors of the repository.
use vstd::prelude::*;

verus! {

#[derive(Debug)]
pub enum DbError {
    /// The storage handle was used before it was opened and migrated.
    NotOpened,
    /// A write touched an unexpected number of rows, or an identity that
    /// must be present was absent: the stored identities are corrupt.
    SeriousBug,
    /// A stored row does not have the expected shape, or holds a malformed
    /// timestamp.
    Decode,
    /// A timestamp to be written lies outside years 0000 to 9999.
    InvalidTimestamp,
    /// A report names another device than the one it was expected from.
    DeviceMismatch,
    /// The schema on storage is newer than this library knows.
    UnknownSchema,
    /// The storage engine failed.
    Storage(rusqlite::Error),
}

} // verus!

//! The schema, as an ordered list of forward-only steps. The version that
//! a database has reached is kept in SQLite's `user_version`.
use crate::error::DbError;
use crate::sql::{execute_batch, query, SqlParam, SqlValue};
use vstd::prelude::*;

verus! {

/// The number of schema steps; a fully migrated database has this version.
pub const LATEST_VERSION: usize = 2;

/// The first step: stations, their modules and their sensors.
pub const AGGREGATE_SCHEMA: &'static str = "BEGIN;
        CREATE TABLE station (
            id INTEGER PRIMARY KEY AUTOINCREMENT,
            device_id TEXT NOT NULL UNIQUE,
            generation_id TEXT NOT NULL,
            name TEXT NOT NULL,
            firmware_label TEXT NOT NULL,
            firmware_time INTEGER NOT NULL,
            last_seen TEXT NOT NULL,
            meta_size INTEGER NOT NULL,
            meta_records INTEGER NOT NULL,
            data_size INTEGER NOT NULL,
            data_records INTEGER NOT NULL,
            battery_percentage INTEGER NOT NULL,
            battery_voltage INTEGER NOT NULL,
            solar_voltage INTEGER NOT NULL,
            status INTEGER NOT NULL
        );
        CREATE TABLE module (
            id INTEGER PRIMARY KEY AUTOINCREMENT,
            station_id INTEGER NOT NULL REFERENCES station(id),
            hardware_id TEXT NOT NULL,
            manufacturer INTEGER NOT NULL,
            kind INTEGER NOT NULL,
            version INTEGER NOT NULL,
            flags INTEGER NOT NULL,
            position INTEGER NOT NULL,
            key TEXT NOT NULL,
            path TEXT NOT NULL,
            configuration BLOB NOT NULL,
            removed INTEGER NOT NULL
        );
        CREATE TABLE sensor (
            id INTEGER PRIMARY KEY AUTOINCREMENT,
            module_id INTEGER NOT NULL REFERENCES module(id),
            number INTEGER NOT NULL,
            flags INTEGER NOT NULL,
            key TEXT NOT NULL,
            calibrated_uom TEXT NOT NULL,
            uncalibrated_uom TEXT NOT NULL,
            reading_time TEXT,
            calibrated_value INTEGER,
            uncalibrated_value INTEGER,
            removed INTEGER NOT NULL
        );
        PRAGMA user_version = 1;
        COMMIT;";

/// The second step: the download ledger.
pub const DOWNLOAD_SCHEMA: &'static str = "BEGIN;
        CREATE TABLE station_download (
            id INTEGER PRIMARY KEY AUTOINCREMENT,
            station_id INTEGER REFERENCES station(id),
            generation_id TEXT NOT NULL,
            started TEXT NOT NULL,
            begin INTEGER NOT NULL,
            end INTEGER NOT NULL,
            path TEXT NOT NULL,
            uploaded INTEGER,
            finished TEXT,
            size INTEGER,
            error TEXT
        );
        PRAGMA user_version = 2;
        COMMIT;";

/// The text of step `i`, which brings version `i` to version `i + 1`.
pub open spec fn schema_step(i: int) -> Seq<char> {
    if i == 0 {
        AGGREGATE_SCHEMA@
    } else {
        DOWNLOAD_SCHEMA@
    }
}

pub fn migration(i: usize) -> (r: &'static str)
    requires
        i < LATEST_VERSION,
    ensures
        r@ == schema_step(i as int),
{
    if i == 0 {
        AGGREGATE_SCHEMA
    } else {
        DOWNLOAD_SCHEMA
    }
}

/// The steps still to apply to a database at `version`, in order.
pub fn pending_steps(version: i64) -> (r: Result<Vec<&'static str>, DbError>)
    ensures
        match r {
            Ok(v) => 0 <= version <= LATEST_VERSION && v@.len() == LATEST_VERSION - version
                && forall|k: int| 0 <= k < v@.len() ==> (#[trigger] v@[k])@ == schema_step(version + k),
            Err(e) => !(0 <= version <= LATEST_VERSION) && e is UnknownSchema,
        },
{
    let first = first_pending(version)?;
    let mut v: Vec<&'static str> = Vec::new();
    let mut i: usize = first;
    while i < LATEST_VERSION
        invariant
            first == version,
            first <= i <= LATEST_VERSION,
            v@.len() == i - first,
            forall|k: int| 0 <= k < v@.len() ==> (#[trigger] v@[k])@ == schema_step(version + k),
        decreases LATEST_VERSION - i,
    {
        v.push(migration(i));
        i += 1;
    }
    Ok(v)
}

/// The first step still to apply to a database at `version`; a version
/// beyond the known steps is refused.
pub fn first_pending(version: i64) -> (r: Result<usize, DbError>)
    ensures
        match r {
            Ok(i) => 0 <= version <= LATEST_VERSION && i == version,
            Err(e) => !(0 <= version <= LATEST_VERSION) && e is UnknownSchema,
        },
{
    if 0 <= version && version <= LATEST_VERSION as i64 {
        Ok(version as usize)
    } else {
        Err(DbError::UnknownSchema)
    }
}

/// The version held by the one-row, one-column result of reading
/// `user_version`.
pub fn version_of_rows(rows: &Vec<Vec<SqlValue>>) -> (r: Result<i64, DbError>)
    ensures
        match r {
            Ok(v) => rows@.len() == 1 && rows@[0]@.len() == 1 && rows@[0]@[0] == SqlValue::Integer(
                v,
            ),
            Err(e) => !(rows@.len() == 1 && rows@[0]@.len() == 1
                && rows@[0]@[0] is Integer) && e is Decode,
        },
{
    if rows.len() == 1 && rows[0].len() == 1 {
        match &rows[0][0] {
            SqlValue::Integer(v) => Ok(*v),
            _ => Err(DbError::Decode),
        }
    } else {
        Err(DbError::Decode)
    }
}

/// Reads the version the database has reached, then applies the steps of
/// `pending_steps` in order, and stops at the first that fails.
pub fn migrate(conn: &rusqlite::Connection) -> (r: Result<(), DbError>)
    ensures
        r matches Err(e) ==> (e is Storage || e is Decode || e is UnknownSchema),
{
    let rows = match query(conn, "PRAGMA user_version", &Vec::<SqlParam>::new()) {
        Ok(rows) => rows,
        Err(e) => return Err(DbError::Storage(e)),
    };
    let version = version_of_rows(&rows)?;
    let steps = pending_steps(version)?;
    let mut i: usize = 0;
    while i < steps.len()
        decreases steps.len() - i,
    {
        match execute_batch(conn, steps[i]) {
            Ok(()) => {},
            Err(e) => return Err(DbError::Storage(e)),
        }
        i += 1;
    }
    Ok(())
}

} // verus!

//! Reading typed columns out of a result row, and the parameter values
//! that stand for the fields of an entity.
use crate::error::DbError;
use crate::model::{copy_bytes, opt_text};
use crate::sql::{SqlParam, SqlValue};
use crate::time::{rfc3339_of, Timestamp};
use vstd::prelude::*;

verus! {

pub open spec fn int_at(row: Seq<SqlValue>, i: int) -> Option<i64> {
    if 0 <= i < row.len() {
        match row[i] {
            SqlValue::Integer(v) => Some(v),
            _ => None,
        }
    } else {
        None
    }
}

pub open spec fn opt_int_at(row: Seq<SqlValue>, i: int) -> Option<Option<i64>> {
    if 0 <= i < row.len() {
        match row[i] {
            SqlValue::Null => Some(None),
            SqlValue::Integer(v) => Some(Some(v)),
            _ => None,
        }
    } else {
        None
    }
}

pub open spec fn u32_at(row: Seq<SqlValue>, i: int) -> Option<u32> {
    match int_at(row, i) {
        Some(v) => if 0 <= v <= u32::MAX {
            Some(v as u32)
        } else {
            None
        },
        None => None,
    }
}

pub open spec fn opt_u32_at(row: Seq<SqlValue>, i: int) -> Option<Option<u32>> {
    match opt_int_at(row, i) {
        Some(Some(v)) => if 0 <= v <= u32::MAX {
            Some(Some(v as u32))
        } else {
            None
        },
        Some(None) => Some(None),
        None => None,
    }
}

/// A flag is stored as the integer 0 or 1.
pub open spec fn bool_at(row: Seq<SqlValue>, i: int) -> Option<bool> {
    match int_at(row, i) {
        Some(v) => if v == 0 {
            Some(false)
        } else if v == 1 {
            Some(true)
        } else {
            None
        },
        None => None,
    }
}

pub open spec fn text_at(row: Seq<SqlValue>, i: int) -> Option<Seq<char>> {
    if 0 <= i < row.len() {
        match row[i] {
            SqlValue::Text(s) => Some(s@),
            _ => None,
        }
    } else {
        None
    }
}

pub open spec fn opt_text_at(row: Seq<SqlValue>, i: int) -> Option<Option<Seq<char>>> {
    if 0 <= i < row.len() {
        match row[i] {
            SqlValue::Null => Some(None),
            SqlValue::Text(s) => Some(Some(s@)),
            _ => None,
        }
    } else {
        None
    }
}

pub open spec fn blob_at(row: Seq<SqlValue>, i: int) -> Option<Seq<u8>> {
    if 0 <= i < row.len() {
        match row[i] {
            SqlValue::Blob(b) => Some(b@),
            _ => None,
        }
    } else {
        None
    }
}

/// The well-formed instant whose stored text this is.
pub open spec fn ts_of_text(s: Seq<char>) -> Option<Timestamp> {
    if exists|t: Timestamp| t.wf() && rfc3339_of(t.secs, t.nanos) == s {
        Some(choose|t: Timestamp| t.wf() && rfc3339_of(t.secs, t.nanos) == s)
    } else {
        None
    }
}

pub open spec fn ts_at(row: Seq<SqlValue>, i: int) -> Option<Timestamp> {
    match text_at(row, i) {
        Some(s) => ts_of_text(s),
        None => None,
    }
}

pub open spec fn opt_ts_at(row: Seq<SqlValue>, i: int) -> Option<Option<Timestamp>> {
    match opt_text_at(row, i) {
        Some(Some(s)) => match ts_of_text(s) {
            Some(t) => Some(Some(t)),
            None => None,
        },
        Some(None) => Some(None),
        None => None,
    }
}

pub fn int_col(row: &Vec<SqlValue>, i: usize) -> (r: Result<i64, DbError>)
    ensures
        match r {
            Ok(v) => int_at(row@, i as int) == Some(v),
            Err(e) => int_at(row@, i as int) is None && e is Decode,
        },
{
    if i < row.len() {
        match &row[i] {
            SqlValue::Integer(v) => Ok(*v),
            _ => Err(DbError::Decode),
        }
    } else {
        Err(DbError::Decode)
    }
}

pub fn opt_int_col(row: &Vec<SqlValue>, i: usize) -> (r: Result<Option<i64>, DbError>)
    ensures
        match r {
            Ok(v) => opt_int_at(row@, i as int) == Some(v),
            Err(e) => opt_int_at(row@, i as int) is None && e is Decode,
        },
{
    if i < row.len() {
        match &row[i] {
            SqlValue::Null => Ok(None),
            SqlValue::Integer(v) => Ok(Some(*v)),
            _ => Err(DbError::Decode),
        }
    } else {
        Err(DbError::Decode)
    }
}

pub fn u32_col(row: &Vec<SqlValue>, i: usize) -> (r: Result<u32, DbError>)
    ensures
        match r {
            Ok(v) => u32_at(row@, i as int) == Some(v),
            Err(e) => u32_at(row@, i as int) is None && e is Decode,
        },
{
    let v = int_col(row, i)?;
    if 0 <= v && v <= u32::MAX as i64 {
        Ok(v as u32)
    } else {
        Err(DbError::Decode)
    }
}

pub fn opt_u32_col(row: &Vec<SqlValue>, i: usize) -> (r: Result<Option<u32>, DbError>)
    ensures
        match r {
            Ok(v) => opt_u32_at(row@, i as int) == Some(v),
            Err(e) => opt_u32_at(row@, i as int) is None && e is Decode,
        },
{
    match opt_int_col(row, i)? {
        Some(v) => if 0 <= v && v <= u32::MAX as i64 {
            Ok(Some(v as u32))
        } else {
            Err(DbError::Decode)
        },
        None => Ok(None),
    }
}

pub fn bool_col(row: &Vec<SqlValue>, i: usize) -> (r: Result<bool, DbError>)
    ensures
        match r {
            Ok(v) => bool_at(row@, i as int) == Some(v),
            Err(e) => bool_at(row@, i as int) is None && e is Decode,
        },
{
    let v = int_col(row, i)?;
    if v == 0 {
        Ok(false)
    } else if v == 1 {
        Ok(true)
    } else {
        Err(DbError::Decode)
    }
}

pub fn text_col(row: &Vec<SqlValue>, i: usize) -> (r: Result<String, DbError>)
    ensures
        match r {
            Ok(v) => text_at(row@, i as int) == Some(v@),
            Err(e) => text_at(row@, i as int) is None && e is Decode,
        },
{
    if i < row.len() {
        match &row[i] {
            SqlValue::Text(s) => Ok(s.clone()),
            _ => Err(DbError::Decode),
        }
    } else {
        Err(DbError::Decode)
    }
}

pub fn opt_text_col(row: &Vec<SqlValue>, i: usize) -> (r: Result<Option<String>, DbError>)
    ensures
        match r {
            Ok(v) => opt_text_at(row@, i as int) == Some(opt_text(v)),
            Err(e) => opt_text_at(row@, i as int) is None && e is Decode,
        },
{
    if i < row.len() {
        match &row[i] {
            SqlValue::Null => Ok(None),
            SqlValue::Text(s) => Ok(Some(s.clone())),
            _ => Err(DbError::Decode),
        }
    } else {
        Err(DbError::Decode)
    }
}

pub fn blob_col(row: &Vec<SqlValue>, i: usize) -> (r: Result<Vec<u8>, DbError>)
    ensures
        match r {
            Ok(v) => blob_at(row@, i as int) == Some(v@),
            Err(e) => blob_at(row@, i as int) is None && e is Decode,
        },
{
    if i < row.len() {
        match &row[i] {
            SqlValue::Blob(b) => Ok(copy_bytes(b)),
            _ => Err(DbError::Decode),
        }
    } else {
        Err(DbError::Decode)
    }
}

/// Reads stored timestamp text; malformed text is a decode error. Every
/// text written for a well-formed instant reads back as that instant.
pub fn decode_timestamp(s: &String) -> (r: Result<Timestamp, DbError>)
    ensures
        match r {
            Ok(t) => ts_of_text(s@) == Some(t),
            Err(e) => ts_of_text(s@) is None && e is Decode,
        },
        forall|t: Timestamp| t.wf() && s@ == rfc3339_of(t.secs, t.nanos) ==> (r matches Ok(u) && u == t),
{
    match Timestamp::from_rfc3339(s) {
        Some(t) => {
            proof {
                let c = choose|c: Timestamp| c.wf() && rfc3339_of(c.secs, c.nanos) == s@;
                assert(c == t);
            }
            Ok(t)
        },
        None => Err(DbError::Decode),
    }
}

pub fn ts_col(row: &Vec<SqlValue>, i: usize) -> (r: Result<Timestamp, DbError>)
    ensures
        match r {
            Ok(v) => ts_at(row@, i as int) == Some(v),
            Err(e) => ts_at(row@, i as int) is None && e is Decode,
        },
{
    let s = text_col(row, i)?;
    decode_timestamp(&s)
}

pub fn opt_ts_col(row: &Vec<SqlValue>, i: usize) -> (r: Result<Option<Timestamp>, DbError>)
    ensures
        match r {
            Ok(v) => opt_ts_at(row@, i as int) == Some(v),
            Err(e) => opt_ts_at(row@, i as int) is None && e is Decode,
        },
{
    match opt_text_col(row, i)? {
        Some(s) => {
            let t = decode_timestamp(&s)?;
            Ok(Some(t))
        },
        None => Ok(None),
    }
}

pub open spec fn text_param(p: SqlParam, s: Seq<char>) -> bool {
    p matches SqlParam::Text(t) && t@ == s
}

pub open spec fn opt_text_param(p: SqlParam, s: Option<Seq<char>>) -> bool {
    match s {
        Some(v) => text_param(p, v),
        None => p is Null,
    }
}

pub open spec fn opt_int_param(p: SqlParam, v: Option<i64>) -> bool {
    match v {
        Some(x) => p == SqlParam::Integer(x),
        None => p is Null,
    }
}

pub open spec fn bool_param(p: SqlParam, b: bool) -> bool {
    p == SqlParam::Integer(if b { 1 } else { 0 })
}

pub open spec fn ts_param(p: SqlParam, t: Timestamp) -> bool {
    text_param(p, rfc3339_of(t.secs, t.nanos))
}

pub open spec fn opt_ts_param(p: SqlParam, t: Option<Timestamp>) -> bool {
    match t {
        Some(v) => ts_param(p, v),
        None => p is Null,
    }
}

pub fn text_value(s: &String) -> (r: SqlParam)
    ensures
        text_param(r, s@),
{
    SqlParam::Text(s.clone())
}

pub fn opt_text_value(s: &Option<String>) -> (r: SqlParam)
    ensures
        opt_text_param(r, opt_text(*s)),
{
    match s {
        Some(v) => SqlParam::Text(v.clone()),
        None => SqlParam::Null,
    }
}

pub fn opt_int_value(v: Option<i64>) -> (r: SqlParam)
    ensures
        opt_int_param(r, v),
{
    match v {
        Some(x) => SqlParam::Integer(x),
        None => SqlParam::Null,
    }
}

pub fn bool_value(b: bool) -> (r: SqlParam)
    ensures
        bool_param(r, b),
{
    SqlParam::Integer(if b { 1 } else { 0 })
}

/// The stored text of an instant; an instant outside years 0000 to 9999
/// cannot be stored.
pub fn ts_value(t: Timestamp) -> (r: Result<SqlParam, DbError>)
    ensures
        match r {
            Ok(p) => t.wf() && ts_param(p, t),
            Err(e) => !t.wf() && e is InvalidTimestamp,
        },
{
    match Timestamp::new(t.secs, t.nanos) {
        Some(v) => Ok(SqlParam::Text(v.to_rfc3339())),
        None => Err(DbError::InvalidTimestamp),
    }
}

pub fn opt_ts_value(t: Option<Timestamp>) -> (r: Result<SqlParam, DbError>)
    ensures
        match r {
            Ok(p) => (t matches Some(v) ==> v.wf()) && opt_ts_param(p, t),
            Err(e) => (t matches Some(v) && !v.wf()) && e is InvalidTimestamp,
        },
{
    match t {
        Some(v) => ts_value(v),
        None => Ok(SqlParam::Null),
    }
}

} // verus!

//! How each entity is laid out in its table: the parameters written for it
//! and the entity read back from a selected row.
use crate::columns::{
    blob_at, blob_col, bool_at, bool_col, bool_param, bool_value, int_at, int_col, opt_int_at,
    opt_int_col, opt_int_param, opt_int_value, opt_text_at, opt_text_col,
    opt_text_param, opt_text_value, opt_ts_at, opt_ts_col, opt_ts_param, opt_ts_value, opt_u32_at,
    opt_u32_col, text_at, text_col, text_param, text_value, ts_at, ts_col, ts_param, ts_value,
    u32_at, u32_col,
};
use crate::error::DbError;
use crate::model::{copy_bytes, 
    Battery, DeviceId, DownloadModel, Firmware, LiveValue, Module, ModuleHeader, ModuleModel,
    Sensor, SensorModel, Solar, Station, StationDownload, StationModel, Stream,
};
use crate::sql::{SqlParam, SqlValue};
use crate::time::Timestamp;
use vstd::prelude::*;

verus! {

/// The columns that `select` statements read for a station, in order.
pub const STATION_COLUMNS: usize = 15;

pub const MODULE_COLUMNS: usize = 12;

pub const SENSOR_COLUMNS: usize = 11;

pub const DOWNLOAD_COLUMNS: usize = 11;

pub open spec fn station_of_row(row: Seq<SqlValue>) -> Option<StationModel> {
    if row.len() == STATION_COLUMNS && int_at(row, 0) is Some && text_at(row, 1) is Some
        && text_at(row, 2) is Some && text_at(row, 3) is Some && text_at(row, 4) is Some
        && int_at(row, 5) is Some && ts_at(row, 6) is Some && int_at(row, 7) is Some
        && int_at(row, 8) is Some && int_at(row, 9) is Some && int_at(row, 10) is Some
        && u32_at(row, 11) is Some && u32_at(row, 12) is Some && u32_at(row, 13) is Some
        && u32_at(row, 14) is Some {
        Some(
            StationModel {
                id: Some(int_at(row, 0)->0),
                device_id: text_at(row, 1)->0,
                generation_id: text_at(row, 2)->0,
                name: text_at(row, 3)->0,
                firmware_label: text_at(row, 4)->0,
                firmware_time: int_at(row, 5)->0,
                last_seen: ts_at(row, 6)->0,
                meta: Stream { size: int_at(row, 7)->0, records: int_at(row, 8)->0 },
                data: Stream { size: int_at(row, 9)->0, records: int_at(row, 10)->0 },
                battery: Battery {
                    percentage_bits: u32_at(row, 11)->0,
                    voltage_bits: u32_at(row, 12)->0,
                },
                solar: Solar { voltage_bits: u32_at(row, 13)->0 },
                status: u32_at(row, 14)->0,
                modules: seq![],
            },
        )
    } else {
        None
    }
}

/// The thirteen station fields that an insert and an update both write,
/// from position `k` on.
pub open spec fn station_fields_at(p: Seq<SqlParam>, k: int, s: StationModel) -> bool {
    &&& text_param(p[k], s.generation_id)
    &&& text_param(p[k + 1], s.name)
    &&& text_param(p[k + 2], s.firmware_label)
    &&& p[k + 3] == SqlParam::Integer(s.firmware_time)
    &&& ts_param(p[k + 4], s.last_seen)
    &&& p[k + 5] == SqlParam::Integer(s.meta.size)
    &&& p[k + 6] == SqlParam::Integer(s.meta.records)
    &&& p[k + 7] == SqlParam::Integer(s.data.size)
    &&& p[k + 8] == SqlParam::Integer(s.data.records)
    &&& p[k + 9] == SqlParam::Integer(s.battery.percentage_bits as i64)
    &&& p[k + 10] == SqlParam::Integer(s.battery.voltage_bits as i64)
    &&& p[k + 11] == SqlParam::Integer(s.solar.voltage_bits as i64)
    &&& p[k + 12] == SqlParam::Integer(s.status as i64)
}

fn push_station_fields(p: &mut Vec<SqlParam>, s: &Station) -> (r: Result<(), DbError>)
    ensures
        match r {
            Ok(()) => s.last_seen.wf() && final(p)@.len() == old(p)@.len() + 13
                && final(p)@.subrange(0, old(p)@.len() as int) == old(p)@
                && station_fields_at(final(p)@, old(p)@.len() as int, s@),
            Err(e) => !s.last_seen.wf() && e is InvalidTimestamp,
        },
{
    let seen = ts_value(s.last_seen)?;
    let ghost start = p@;
    p.push(text_value(&s.generation_id));
    p.push(text_value(&s.name));
    p.push(text_value(&s.firmware.label));
    p.push(SqlParam::Integer(s.firmware.time));
    p.push(seen);
    p.push(SqlParam::Integer(s.meta.size));
    p.push(SqlParam::Integer(s.meta.records));
    p.push(SqlParam::Integer(s.data.size));
    p.push(SqlParam::Integer(s.data.records));
    p.push(SqlParam::Integer(s.battery.percentage_bits as i64));
    p.push(SqlParam::Integer(s.battery.voltage_bits as i64));
    p.push(SqlParam::Integer(s.solar.voltage_bits as i64));
    p.push(SqlParam::Integer(s.status as i64));
    assert(p@.subrange(0, start.len() as int) =~= start);
    Ok(())
}

/// Parameters of the station insert: the device identity, then the fields.
pub fn insert_station_params(s: &Station) -> (r: Result<Vec<SqlParam>, DbError>)
    ensures
        match r {
            Ok(p) => s.last_seen.wf() && p@.len() == 14 && text_param(p@[0], s@.device_id)
                && station_fields_at(p@, 1, s@),
            Err(e) => !s.last_seen.wf() && e is InvalidTimestamp,
        },
{
    let mut p: Vec<SqlParam> = Vec::new();
    p.push(text_value(&s.device_id.0));
    let ghost first = p@;
    push_station_fields(&mut p, s)?;
    assert(p@[0] == p@.subrange(0, 1)[0]);
    Ok(p)
}

/// Parameters of the station update: the fields, then the identity.
pub fn update_station_params(s: &Station, id: i64) -> (r: Result<Vec<SqlParam>, DbError>)
    ensures
        match r {
            Ok(p) => s.last_seen.wf() && p@.len() == 14 && station_fields_at(p@, 0, s@)
                && p@[13] == SqlParam::Integer(id),
            Err(e) => !s.last_seen.wf() && e is InvalidTimestamp,
        },
{
    let mut p: Vec<SqlParam> = Vec::new();
    push_station_fields(&mut p, s)?;
    let ghost before = p@;
    p.push(SqlParam::Integer(id));
    assert(p@.subrange(0, 13) =~= before);
    Ok(p)
}

/// Reads a station row; its modules are not part of the row.
pub fn decode_station_row(row: &Vec<SqlValue>) -> (r: Result<Station, DbError>)
    ensures
        match r {
            Ok(s) => station_of_row(row@) == Some(s@),
            Err(e) => station_of_row(row@) is None && e is Decode,
        },
{
    if row.len() != STATION_COLUMNS {
        return Err(DbError::Decode);
    }
    let id = int_col(row, 0)?;
    let device_id = text_col(row, 1)?;
    let generation_id = text_col(row, 2)?;
    let name = text_col(row, 3)?;
    let label = text_col(row, 4)?;
    let time = int_col(row, 5)?;
    let last_seen = ts_col(row, 6)?;
    let meta_size = int_col(row, 7)?;
    let meta_records = int_col(row, 8)?;
    let data_size = int_col(row, 9)?;
    let data_records = int_col(row, 10)?;
    let percentage_bits = u32_col(row, 11)?;
    let voltage_bits = u32_col(row, 12)?;
    let solar_bits = u32_col(row, 13)?;
    let status = u32_col(row, 14)?;
    let s = Station {
        id: Some(id),
        device_id: DeviceId(device_id),
        generation_id,
        name,
        firmware: Firmware { label, time },
        last_seen,
        meta: Stream { size: meta_size, records: meta_records },
        data: Stream { size: data_size, records: data_records },
        battery: Battery { percentage_bits, voltage_bits },
        solar: Solar { voltage_bits: solar_bits },
        status,
        modules: Vec::new(),
    };
    assert(s@.modules =~= seq![]);
    Ok(s)
}


pub open spec fn module_of_row(row: Seq<SqlValue>) -> Option<ModuleModel> {
    if row.len() == MODULE_COLUMNS && int_at(row, 0) is Some && opt_int_at(row, 1) is Some
        && text_at(row, 2) is Some && u32_at(row, 3) is Some && u32_at(row, 4) is Some
        && u32_at(row, 5) is Some && u32_at(row, 6) is Some && u32_at(row, 7) is Some
        && text_at(row, 8) is Some && text_at(row, 9) is Some && blob_at(row, 10) is Some
        && bool_at(row, 11) is Some {
        Some(
            ModuleModel {
                id: Some(int_at(row, 0)->0),
                station_id: opt_int_at(row, 1)->0,
                hardware_id: text_at(row, 2)->0,
                header: ModuleHeader {
                    manufacturer: u32_at(row, 3)->0,
                    kind: u32_at(row, 4)->0,
                    version: u32_at(row, 5)->0,
                },
                flags: u32_at(row, 6)->0,
                position: u32_at(row, 7)->0,
                key: text_at(row, 8)->0,
                path: text_at(row, 9)->0,
                configuration: blob_at(row, 10)->0,
                removed: bool_at(row, 11)->0,
                sensors: seq![],
            },
        )
    } else {
        None
    }
}

/// The eleven module fields that an insert and an update both write.
pub open spec fn module_fields(p: Seq<SqlParam>, m: ModuleModel) -> bool {
    &&& opt_int_param(p[0], m.station_id)
    &&& text_param(p[1], m.hardware_id)
    &&& p[2] == SqlParam::Integer(m.header.manufacturer as i64)
    &&& p[3] == SqlParam::Integer(m.header.kind as i64)
    &&& p[4] == SqlParam::Integer(m.header.version as i64)
    &&& p[5] == SqlParam::Integer(m.flags as i64)
    &&& p[6] == SqlParam::Integer(m.position as i64)
    &&& text_param(p[7], m.key)
    &&& text_param(p[8], m.path)
    &&& (p[9] matches SqlParam::Blob(b) && b@ == m.configuration)
    &&& bool_param(p[10], m.removed)
}

/// Parameters of a module write: the fields, then the identity when one
/// is given (an update).
pub fn module_params(m: &Module, id: Option<i64>) -> (p: Vec<SqlParam>)
    ensures
        p@.len() == (if id is Some { 12int } else { 11int }),
        module_fields(p@, m@),
        id matches Some(i) ==> p@[11] == SqlParam::Integer(i),
{
    let mut p: Vec<SqlParam> = Vec::new();
    p.push(opt_int_value(m.station_id));
    p.push(text_value(&m.hardware_id));
    p.push(SqlParam::Integer(m.header.manufacturer as i64));
    p.push(SqlParam::Integer(m.header.kind as i64));
    p.push(SqlParam::Integer(m.header.version as i64));
    p.push(SqlParam::Integer(m.flags as i64));
    p.push(SqlParam::Integer(m.position as i64));
    p.push(text_value(&m.key));
    p.push(text_value(&m.path));
    p.push(SqlParam::Blob(copy_bytes(&m.configuration)));
    p.push(bool_value(m.removed));
    if let Some(i) = id {
        p.push(SqlParam::Integer(i));
    }
    p
}

/// Reads a module row; its sensors are not part of the row.
pub fn decode_module_row(row: &Vec<SqlValue>) -> (r: Result<Module, DbError>)
    ensures
        match r {
            Ok(m) => module_of_row(row@) == Some(m@),
            Err(e) => module_of_row(row@) is None && e is Decode,
        },
{
    if row.len() != MODULE_COLUMNS {
        return Err(DbError::Decode);
    }
    let id = int_col(row, 0)?;
    let station_id = opt_int_col(row, 1)?;
    let hardware_id = text_col(row, 2)?;
    let manufacturer = u32_col(row, 3)?;
    let kind = u32_col(row, 4)?;
    let version = u32_col(row, 5)?;
    let flags = u32_col(row, 6)?;
    let position = u32_col(row, 7)?;
    let key = text_col(row, 8)?;
    let path = text_col(row, 9)?;
    let configuration = blob_col(row, 10)?;
    let removed = bool_col(row, 11)?;
    let m = Module {
        id: Some(id),
        station_id,
        hardware_id,
        header: ModuleHeader { manufacturer, kind, version },
        flags,
        position,
        key,
        path,
        configuration,
        removed,
        sensors: Vec::new(),
    };
    assert(m@.sensors =~= seq![]);
    Ok(m)
}

pub open spec fn reading_time(v: Option<LiveValue>) -> Option<Timestamp> {
    match v {
        Some(l) => Some(l.time),
        None => None,
    }
}

pub open spec fn reading_value(v: Option<LiveValue>) -> Option<i64> {
    match v {
        Some(l) => Some(l.value_bits as i64),
        None => None,
    }
}

pub open spec fn reading_uncalibrated(v: Option<LiveValue>) -> Option<i64> {
    match v {
        Some(l) => Some(l.uncalibrated_bits as i64),
        None => None,
    }
}

/// A reading is stored in three nullable columns; it is present only when
/// all three are.
pub open spec fn reading_of(
    time: Option<Timestamp>,
    value: Option<u32>,
    uncalibrated: Option<u32>,
) -> Option<LiveValue> {
    match (time, value, uncalibrated) {
        (Some(t), Some(v), Some(u)) => Some(
            LiveValue { time: t, value_bits: v, uncalibrated_bits: u },
        ),
        _ => None,
    }
}

/// The reading of a sensor must have a storable timestamp.
pub open spec fn reading_storable(v: Option<LiveValue>) -> bool {
    v matches Some(l) ==> l.time.wf()
}

pub open spec fn sensor_of_row(row: Seq<SqlValue>) -> Option<SensorModel> {
    if row.len() == SENSOR_COLUMNS && int_at(row, 0) is Some && opt_int_at(row, 1) is Some
        && u32_at(row, 2) is Some && u32_at(row, 3) is Some && text_at(row, 4) is Some
        && text_at(row, 5) is Some && text_at(row, 6) is Some && opt_ts_at(row, 7) is Some
        && opt_u32_at(row, 8) is Some && opt_u32_at(row, 9) is Some && bool_at(row, 10) is Some {
        Some(
            SensorModel {
                id: Some(int_at(row, 0)->0),
                module_id: opt_int_at(row, 1)->0,
                number: u32_at(row, 2)->0,
                flags: u32_at(row, 3)->0,
                key: text_at(row, 4)->0,
                calibrated_uom: text_at(row, 5)->0,
                uncalibrated_uom: text_at(row, 6)->0,
                value: reading_of(
                    opt_ts_at(row, 7)->0,
                    opt_u32_at(row, 8)->0,
                    opt_u32_at(row, 9)->0,
                ),
                removed: bool_at(row, 10)->0,
            },
        )
    } else {
        None
    }
}

/// The nine sensor fields that an insert and an update both write, from
/// position `k` on. The owning module is written only by an insert.
pub open spec fn sensor_fields(p: Seq<SqlParam>, k: int, s: SensorModel) -> bool {
    &&& p[k] == SqlParam::Integer(s.number as i64)
    &&& p[k + 1] == SqlParam::Integer(s.flags as i64)
    &&& text_param(p[k + 2], s.key)
    &&& text_param(p[k + 3], s.calibrated_uom)
    &&& text_param(p[k + 4], s.uncalibrated_uom)
    &&& opt_ts_param(p[k + 5], reading_time(s.value))
    &&& opt_int_param(p[k + 6], reading_value(s.value))
    &&& opt_int_param(p[k + 7], reading_uncalibrated(s.value))
    &&& bool_param(p[k + 8], s.removed)
}

/// Parameters of a sensor write. An insert (no identity given) writes the
/// owning module, then the fields; an update writes the fields, then the
/// identity.
pub fn sensor_params(s: &Sensor, id: Option<i64>) -> (r: Result<Vec<SqlParam>, DbError>)
    ensures
        match r {
            Ok(p) => reading_storable(s.value) && p@.len() == 10 && match id {
                None => opt_int_param(p@[0], s.module_id) && sensor_fields(p@, 1, s@),
                Some(i) => sensor_fields(p@, 0, s@) && p@[9] == SqlParam::Integer(i),
            },
            Err(e) => !reading_storable(s.value) && e is InvalidTimestamp,
        },
{
    let (time, value, uncalibrated) = match s.value {
        Some(l) => (Some(l.time), Some(l.value_bits as i64), Some(l.uncalibrated_bits as i64)),
        None => (None, None, None),
    };
    let time = opt_ts_value(time)?;
    let mut p: Vec<SqlParam> = Vec::new();
    if id.is_none() {
        p.push(opt_int_value(s.module_id));
    }
    p.push(SqlParam::Integer(s.number as i64));
    p.push(SqlParam::Integer(s.flags as i64));
    p.push(text_value(&s.key));
    p.push(text_value(&s.calibrated_uom));
    p.push(text_value(&s.uncalibrated_uom));
    p.push(time);
    p.push(opt_int_value(value));
    p.push(opt_int_value(uncalibrated));
    p.push(bool_value(s.removed));
    if let Some(i) = id {
        p.push(SqlParam::Integer(i));
    }
    Ok(p)
}

pub fn decode_sensor_row(row: &Vec<SqlValue>) -> (r: Result<Sensor, DbError>)
    ensures
        match r {
            Ok(s) => sensor_of_row(row@) == Some(s@),
            Err(e) => sensor_of_row(row@) is None && e is Decode,
        },
{
    if row.len() != SENSOR_COLUMNS {
        return Err(DbError::Decode);
    }
    let id = int_col(row, 0)?;
    let module_id = opt_int_col(row, 1)?;
    let number = u32_col(row, 2)?;
    let flags = u32_col(row, 3)?;
    let key = text_col(row, 4)?;
    let calibrated_uom = text_col(row, 5)?;
    let uncalibrated_uom = text_col(row, 6)?;
    let time = opt_ts_col(row, 7)?;
    let value_bits = opt_u32_col(row, 8)?;
    let uncalibrated_bits = opt_u32_col(row, 9)?;
    let removed = bool_col(row, 10)?;
    let value = match (time, value_bits, uncalibrated_bits) {
        (Some(t), Some(v), Some(u)) => Some(
            LiveValue { time: t, value_bits: v, uncalibrated_bits: u },
        ),
        _ => None,
    };
    Ok(
        Sensor {
            id: Some(id),
            module_id,
            number,
            flags,
            key,
            calibrated_uom,
            uncalibrated_uom,
            value,
            removed,
        },
    )
}

pub open spec fn download_of_row(row: Seq<SqlValue>) -> Option<DownloadModel> {
    if row.len() == DOWNLOAD_COLUMNS && int_at(row, 0) is Some && opt_int_at(row, 1) is Some
        && text_at(row, 2) is Some && ts_at(row, 3) is Some && int_at(row, 4) is Some
        && int_at(row, 5) is Some && text_at(row, 6) is Some && opt_int_at(row, 7) is Some
        && opt_ts_at(row, 8) is Some && opt_int_at(row, 9) is Some && opt_text_at(row, 10) is Some {
        Some(
            DownloadModel {
                id: Some(int_at(row, 0)->0),
                station_id: opt_int_at(row, 1)->0,
                generation_id: text_at(row, 2)->0,
                started: ts_at(row, 3)->0,
                begin: int_at(row, 4)->0,
                end: int_at(row, 5)->0,
                path: text_at(row, 6)->0,
                uploaded: opt_int_at(row, 7)->0,
                finished: opt_ts_at(row, 8)->0,
                size: opt_int_at(row, 9)->0,
                error: opt_text_at(row, 10)->0,
            },
        )
    } else {
        None
    }
}

/// The ten download fields that an insert and an update both write.
pub open spec fn download_fields(p: Seq<SqlParam>, d: DownloadModel) -> bool {
    &&& opt_int_param(p[0], d.station_id)
    &&& text_param(p[1], d.generation_id)
    &&& ts_param(p[2], d.started)
    &&& p[3] == SqlParam::Integer(d.begin)
    &&& p[4] == SqlParam::Integer(d.end)
    &&& text_param(p[5], d.path)
    &&& opt_int_param(p[6], d.uploaded)
    &&& opt_ts_param(p[7], d.finished)
    &&& opt_int_param(p[8], d.size)
    &&& opt_text_param(p[9], d.error)
}

pub open spec fn download_storable(d: DownloadModel) -> bool {
    &&& d.started.wf()
    &&& d.finished matches Some(f) ==> f.wf()
}

/// Parameters of a download write: the fields, then the identity when one
/// is given (an update).
pub fn download_params(d: &StationDownload, id: Option<i64>) -> (r: Result<Vec<SqlParam>, DbError>)
    ensures
        match r {
            Ok(p) => download_storable(d@) && p@.len() == (if id is Some {
                11int
            } else {
                10int
            }) && download_fields(p@, d@) && (id matches Some(i) ==> p@[10] == SqlParam::Integer(
                i,
            )),
            Err(e) => !download_storable(d@) && e is InvalidTimestamp,
        },
{
    let started = ts_value(d.started)?;
    let finished = opt_ts_value(d.finished)?;
    let mut p: Vec<SqlParam> = Vec::new();
    p.push(opt_int_value(d.station_id));
    p.push(text_value(&d.generation_id));
    p.push(started);
    p.push(SqlParam::Integer(d.begin));
    p.push(SqlParam::Integer(d.end));
    p.push(text_value(&d.path));
    p.push(opt_int_value(d.uploaded));
    p.push(finished);
    p.push(opt_int_value(d.size));
    p.push(opt_text_value(&d.error));
    if let Some(i) = id {
        p.push(SqlParam::Integer(i));
    }
    Ok(p)
}

pub fn decode_download_row(row: &Vec<SqlValue>) -> (r: Result<StationDownload, DbError>)
    ensures
        match r {
            Ok(d) => download_of_row(row@) == Some(d@),
            Err(e) => download_of_row(row@) is None && e is Decode,
        },
{
    if row.len() != DOWNLOAD_COLUMNS {
        return Err(DbError::Decode);
    }
    let id = int_col(row, 0)?;
    let station_id = opt_int_col(row, 1)?;
    let generation_id = text_col(row, 2)?;
    let started = ts_col(row, 3)?;
    let begin = int_col(row, 4)?;
    let end = int_col(row, 5)?;
    let path = text_col(row, 6)?;
    let uploaded = opt_int_col(row, 7)?;
    let finished = opt_ts_col(row, 8)?;
    let size = opt_int_col(row, 9)?;
    let error = opt_text_col(row, 10)?;
    Ok(
        StationDownload {
            id: Some(id),
            station_id,
            generation_id,
            started,
            begin,
            end,
            path,
            uploaded,
            finished,
            size,
            error,
        },
    )
}

} // verus!

//! The repository: insert, update and select primitives over the station,
//! module, sensor and download tables, and the synchronizer that hydrates,
//! merges and persists a station's aggregate in one transaction.
use crate::columns::{text_param, text_value};
use crate::error::DbError;
use crate::merge::{merge, merge_station, station_view};
use crate::migrations::migrate;
use crate::model::{
    modules_view, sensors_view, DeviceId, Module, ModuleModel, Sensor, SensorModel, Station,
    StationDownload, StationModel,
};
use crate::rows::{
    decode_download_row, decode_module_row, decode_sensor_row, decode_station_row,
    download_of_row, download_storable, insert_station_params, reading_storable, module_of_row, module_params, sensor_of_row,
    sensor_params, station_of_row, update_station_params, download_params,
};
use crate::sql::{execute, execute_batch, last_insert_rowid, open_in_memory, query, SqlParam, SqlValue};
use vstd::prelude::*;

verus! {

/// Maps a failure of the storage engine into the repository's errors.
fn storage<T>(r: Result<T, rusqlite::Error>) -> (o: Result<T, DbError>)
    ensures
        match r {
            Ok(v) => o == Ok::<T, DbError>(v),
            Err(e) => o == Err::<T, DbError>(DbError::Storage(e)),
        },
{
    match r {
        Ok(v) => Ok(v),
        Err(e) => Err(DbError::Storage(e)),
    }
}

/// The parameters of a select by one identity.
pub fn id_param(id: i64) -> (p: Vec<SqlParam>)
    ensures
        p@ == seq![SqlParam::Integer(id)],
{
    let mut p: Vec<SqlParam> = Vec::new();
    p.push(SqlParam::Integer(id));
    assert(p@ =~= seq![SqlParam::Integer(id)]);
    p
}

/// The parameters of a select by device identity.
pub fn device_param(device_id: &DeviceId) -> (p: Vec<SqlParam>)
    ensures
        p@.len() == 1,
        text_param(p@[0], device_id.0@),
{
    let mut p: Vec<SqlParam> = Vec::new();
    p.push(text_value(&device_id.0));
    p
}

/// The parameters of a select of every row.
pub fn no_params() -> (p: Vec<SqlParam>)
    ensures
        p@.len() == 0,
{
    Vec::new()
}

/// A write by identity must change exactly one row; any other count means
/// the stored identities are corrupt.
pub fn expect_one_row(affected: usize) -> (r: Result<(), DbError>)
    ensures
        r is Ok <==> affected == 1,
        r matches Err(e) ==> e is SeriousBug,
{
    if affected == 1 {
        Ok(())
    } else {
        Err(DbError::SeriousBug)
    }
}

/// Reads every row as a station.
pub fn stations_from_rows(rows: &Vec<Vec<SqlValue>>) -> (r: Result<Vec<Station>, DbError>)
    ensures
        match r {
            Ok(v) => v@.len() == rows@.len() && forall|i: int|
                0 <= i < rows@.len() ==> station_of_row(#[trigger] rows@[i]@) == Some(v@[i]@),
            Err(e) => e is Decode && exists|i: int|
                0 <= i < rows@.len() && station_of_row(#[trigger] rows@[i]@) is None,
        },
{
    let mut v: Vec<Station> = Vec::new();
    let mut i: usize = 0;
    while i < rows.len()
        invariant
            i <= rows@.len(),
            v@.len() == i,
            forall|j: int| 0 <= j < i ==> station_of_row(#[trigger] rows@[j]@) == Some(v@[j]@),
        decreases rows.len() - i,
    {
        let s = decode_station_row(&rows[i])?;
        v.push(s);
        i += 1;
    }
    Ok(v)
}

pub fn modules_from_rows(rows: &Vec<Vec<SqlValue>>) -> (r: Result<Vec<Module>, DbError>)
    ensures
        match r {
            Ok(v) => v@.len() == rows@.len() && forall|i: int|
                0 <= i < rows@.len() ==> module_of_row(#[trigger] rows@[i]@) == Some(v@[i]@),
            Err(e) => e is Decode && exists|i: int|
                0 <= i < rows@.len() && module_of_row(#[trigger] rows@[i]@) is None,
        },
{
    let mut v: Vec<Module> = Vec::new();
    let mut i: usize = 0;
    while i < rows.len()
        invariant
            i <= rows@.len(),
            v@.len() == i,
            forall|j: int| 0 <= j < i ==> module_of_row(#[trigger] rows@[j]@) == Some(v@[j]@),
        decreases rows.len() - i,
    {
        let m = decode_module_row(&rows[i])?;
        v.push(m);
        i += 1;
    }
    Ok(v)
}

pub fn sensors_from_rows(rows: &Vec<Vec<SqlValue>>) -> (r: Result<Vec<Sensor>, DbError>)
    ensures
        match r {
            Ok(v) => v@.len() == rows@.len() && forall|i: int|
                0 <= i < rows@.len() ==> sensor_of_row(#[trigger] rows@[i]@) == Some(v@[i]@),
            Err(e) => e is Decode && exists|i: int|
                0 <= i < rows@.len() && sensor_of_row(#[trigger] rows@[i]@) is None,
        },
{
    let mut v: Vec<Sensor> = Vec::new();
    let mut i: usize = 0;
    while i < rows.len()
        invariant
            i <= rows@.len(),
            v@.len() == i,
            forall|j: int| 0 <= j < i ==> sensor_of_row(#[trigger] rows@[j]@) == Some(v@[j]@),
        decreases rows.len() - i,
    {
        let s = decode_sensor_row(&rows[i])?;
        v.push(s);
        i += 1;
    }
    Ok(v)
}

pub fn downloads_from_rows(rows: &Vec<Vec<SqlValue>>) -> (r: Result<Vec<StationDownload>, DbError>)
    ensures
        match r {
            Ok(v) => v@.len() == rows@.len() && forall|i: int|
                0 <= i < rows@.len() ==> download_of_row(#[trigger] rows@[i]@) == Some(v@[i]@),
            Err(e) => e is Decode && exists|i: int|
                0 <= i < rows@.len() && download_of_row(#[trigger] rows@[i]@) is None,
        },
{
    let mut v: Vec<StationDownload> = Vec::new();
    let mut i: usize = 0;
    while i < rows.len()
        invariant
            i <= rows@.len(),
            v@.len() == i,
            forall|j: int| 0 <= j < i ==> download_of_row(#[trigger] rows@[j]@) == Some(v@[j]@),
        decreases rows.len() - i,
    {
        let d = decode_download_row(&rows[i])?;
        v.push(d);
        i += 1;
    }
    Ok(v)
}

/// The station selected for a device: none when no row came back; a row
/// of another device, or more than one row, means the one-row-per-device
/// invariant is broken.
pub fn station_for_device(rows: &Vec<Vec<SqlValue>>, device_id: &DeviceId) -> (r: Result<
    Option<Station>,
    DbError,
>)
    ensures
        match r {
            Ok(None) => rows@.len() == 0,
            Ok(Some(s)) => rows@.len() == 1 && station_of_row(rows@[0]@) == Some(s@)
                && s@.device_id == device_id.0@,
            Err(e) => (e is SeriousBug && (rows@.len() > 1 || (rows@.len() == 1 && (station_of_row(
                rows@[0]@,
            ) matches Some(s) && s.device_id != device_id.0@)))) || (e is Decode && rows@.len()
                == 1 && station_of_row(rows@[0]@) is None),
        },
{
    if rows.len() == 0 {
        Ok(None)
    } else if rows.len() > 1 {
        Err(DbError::SeriousBug)
    } else {
        let s = decode_station_row(&rows[0])?;
        if s.device_id.0.eq(&device_id.0) {
            Ok(Some(s))
        } else {
            Err(DbError::SeriousBug)
        }
    }
}


/// `p` is `m` as written by the repository: every entity has an identity,
/// the ones it had are kept, and each child points at its parent.
pub open spec fn persisted_sensor(m: SensorModel, p: SensorModel, module_id: i64) -> bool {
    &&& p.id is Some
    &&& m.id is Some ==> p.id == m.id
    &&& p == SensorModel { id: p.id, module_id: Some(module_id), ..m }
}

pub open spec fn persisted_module(m: ModuleModel, p: ModuleModel, station_id: i64) -> bool {
    &&& p.id is Some
    &&& m.id is Some ==> p.id == m.id
    &&& p.sensors.len() == m.sensors.len()
    &&& forall|i: int|
        0 <= i < m.sensors.len() ==> persisted_sensor(m.sensors[i], #[trigger] p.sensors[i], p.id->0)
    &&& p == ModuleModel { id: p.id, station_id: Some(station_id), sensors: p.sensors, ..m }
}

pub open spec fn persisted_station(m: StationModel, p: StationModel) -> bool {
    &&& p.id is Some
    &&& m.id is Some ==> p.id == m.id
    &&& p.modules.len() == m.modules.len()
    &&& forall|i: int|
        0 <= i < m.modules.len() ==> persisted_module(m.modules[i], #[trigger] p.modules[i], p.id->0)
    &&& p == StationModel { id: p.id, modules: p.modules, ..m }
}

/// What hydration gives for a device: its stored station, with an
/// identity, and only its active modules, each with an identity.
pub open spec fn hydrated(h: StationModel, device_id: Seq<char>) -> bool {
    &&& h.device_id == device_id
    &&& h.id is Some
    &&& forall|i: int| 0 <= i < h.modules.len() ==> !(#[trigger] h.modules[i]).removed && h.modules[i].id is Some
}

/// The modules that are not tombstoned, in order.
pub open spec fn active_modules(ms: Seq<ModuleModel>) -> Seq<ModuleModel>
    decreases ms.len(),
{
    if ms.len() == 0 {
        seq![]
    } else {
        let rest = active_modules(ms.drop_last());
        if ms.last().removed {
            rest
        } else {
            rest.push(ms.last())
        }
    }
}

/// Keeps the modules that are not tombstoned, in order.
pub fn filter_active(stored: &Vec<Module>) -> (r: Vec<Module>)
    ensures
        modules_view(r@) == active_modules(modules_view(stored@)),
{
    let ghost mv = modules_view(stored@);
    let mut r: Vec<Module> = Vec::new();
    let mut i: usize = 0;
    while i < stored.len()
        invariant
            i <= stored@.len(),
            mv == modules_view(stored@),
            modules_view(r@) == active_modules(mv.subrange(0, i as int)),
        decreases stored.len() - i,
    {
        proof {
            assert(mv.subrange(0, i + 1).drop_last() =~= mv.subrange(0, i as int));
        }
        if !stored[i].removed {
            let m = stored[i].duplicate();
            r.push(m);
            proof {
                assert(modules_view(r@) =~= active_modules(mv.subrange(0, i + 1)));
            }
        }
        i += 1;
    }
    assert(mv.subrange(0, stored@.len() as int) =~= mv);
    r
}

/// Active modules are not tombstoned, and keep the identities they were
/// read with.
pub proof fn lemma_active_modules(ms: Seq<ModuleModel>)
    requires
        forall|i: int| 0 <= i < ms.len() ==> (#[trigger] ms[i]).id is Some,
    ensures
        forall|k: int|
            0 <= k < active_modules(ms).len() ==> !(#[trigger] active_modules(ms)[k]).removed
                && active_modules(ms)[k].id is Some,
    decreases ms.len(),
{
    if ms.len() > 0 {
        let d = ms.drop_last();
        assert forall|i: int| 0 <= i < d.len() implies (#[trigger] d[i]).id is Some by {
            assert(d[i] == ms[i]);
        }
        lemma_active_modules(d);
        assert(ms.last() == ms[ms.len() - 1]);
    }
}

/// Each module with the sensors read for it.
pub open spec fn with_sensors(ms: Seq<ModuleModel>, ss: Seq<Seq<SensorModel>>) -> Seq<ModuleModel> {
    Seq::new(ms.len(), |k: int| ModuleModel { sensors: ss[k], ..ms[k] })
}

/// `h` is assembled from what hydration read: the station `s` (with an
/// identity and no modules), the station's modules `ms` (each with an
/// identity and no sensors), and, for each active module in order, the
/// sensors `ss` read for it (each with an identity). `h` is `s` with the
/// active modules of `ms`, each carrying its sensors.
pub open spec fn hydrated_from(
    h: StationModel,
    s: StationModel,
    ms: Seq<ModuleModel>,
    ss: Seq<Seq<SensorModel>>,
) -> bool {
    &&& s.id is Some
    &&& s.modules.len() == 0
    &&& forall|i: int| 0 <= i < ms.len() ==> (#[trigger] ms[i]).id is Some && ms[i].sensors.len() == 0
    &&& ss.len() == active_modules(ms).len()
    &&& forall|k: int, j: int| 0 <= k < ss.len() && 0 <= j < ss[k].len() ==> (#[trigger] ss[k][j]).id is Some
    &&& h == StationModel { modules: with_sensors(active_modules(ms), ss), ..s }
}

/// What hydration gives for a device.
pub open spec fn hydration_of(h: StationModel, device_id: Seq<char>) -> bool {
    &&& hydrated(h, device_id)
    &&& exists|s: StationModel, ms: Seq<ModuleModel>, ss: Seq<Seq<SensorModel>>|
        #[trigger] hydrated_from(h, s, ms, ss)
}

/// A storage handle: unusable until opened, which migrates the schema.
pub struct Db {
    conn: Option<rusqlite::Connection>,
}

impl Db {
    pub closed spec fn is_open(&self) -> bool {
        self.conn is Some
    }

    pub fn new() -> (r: Db)
        ensures
            !r.is_open(),
    {
        Db { conn: None }
    }

    /// Opens an in-memory database in write-ahead-log mode and migrates it
    /// to the latest schema. On failure the handle stays as it was.
    pub fn open(&mut self) -> (r: Result<(), DbError>)
        ensures
            r is Ok ==> final(self).is_open(),
            r is Err ==> final(self).is_open() == old(self).is_open(),
            r matches Err(e) ==> (e is Storage || e is Decode || e is UnknownSchema),
    {
        let conn = storage(open_in_memory())?;
        storage(execute_batch(&conn, "PRAGMA journal_mode = WAL;"))?;
        migrate(&conn)?;
        self.conn = Some(conn);
        Ok(())
    }

    pub fn require_opened(&self) -> (r: Result<&rusqlite::Connection, DbError>)
        ensures
            r is Ok <==> self.is_open(),
            r matches Err(e) ==> e is NotOpened,
    {
        match &self.conn {
            Some(conn) => Ok(conn),
            None => Err(DbError::NotOpened),
        }
    }

    /// Inserts a station; the result is the station with its new identity.
    pub fn add_station(&self, station: &Station) -> (r: Result<Station, DbError>)
        ensures
            !self.is_open() ==> (r matches Err(e) && e is NotOpened),
            r matches Err(e) ==> (e is NotOpened ==> !self.is_open()) && !(e is DeviceMismatch),
            r matches Err(e) ==> (e is InvalidTimestamp ==> !station.last_seen.wf()),
            self.is_open() && !station.last_seen.wf() ==> (r matches Err(e) && e is InvalidTimestamp),
            r matches Ok(s) ==> s@.id is Some && s@ == (StationModel { id: s@.id, ..station@ }),
    {
        let conn = self.require_opened()?;
        let params = insert_station_params(station)?;
        let affected = storage(
            execute(
                conn,
                "INSERT INTO station (device_id, generation_id, name, firmware_label, firmware_time,
                 last_seen, meta_size, meta_records, data_size, data_records, battery_percentage,
                 battery_voltage, solar_voltage, status)
                 VALUES (?, ?, ?, ?, ?, ?, ?, ?, ?, ?, ?, ?, ?, ?)",
                &params,
            ),
        )?;
        expect_one_row(affected)?;
        let id = last_insert_rowid(conn);
        let mut s = station.duplicate();
        s.id = Some(id);
        Ok(s)
    }

    /// Overwrites the station row with the given identity; the station
    /// must have one.
    pub fn update_station(&self, station: &Station) -> (r: Result<Station, DbError>)
        ensures
            !self.is_open() ==> (r matches Err(e) && e is NotOpened),
            r matches Err(e) ==> (e is NotOpened ==> !self.is_open()) && !(e is DeviceMismatch),
            self.is_open() && station.id is Some && !station.last_seen.wf() ==> (r matches Err(e)
                && e is InvalidTimestamp),
            r matches Err(e) ==> (e is InvalidTimestamp ==> !station.last_seen.wf()),
            self.is_open() && station.id is None ==> (r matches Err(e) && e is SeriousBug),
            r matches Ok(s) ==> s@ == station@ && station.id is Some,
    {
        let conn = self.require_opened()?;
        let id = match station.id {
            Some(id) => id,
            None => return Err(DbError::SeriousBug),
        };
        let params = update_station_params(station, id)?;
        let affected = storage(
            execute(
                conn,
                "UPDATE station SET generation_id = ?, name = ?, firmware_label = ?,
                 firmware_time = ?, last_seen = ?, meta_size = ?, meta_records = ?, data_size = ?,
                 data_records = ?, battery_percentage = ?, battery_voltage = ?, solar_voltage = ?,
                 status = ? WHERE id = ?",
                &params,
            ),
        )?;
        expect_one_row(affected)?;
        Ok(station.duplicate())
    }

    /// Every station, without modules.
    pub fn get_stations(&self) -> (r: Result<Vec<Station>, DbError>)
        ensures
            !self.is_open() ==> (r matches Err(e) && e is NotOpened),
            r matches Err(e) ==> (e is NotOpened ==> !self.is_open()) && !(e is DeviceMismatch),
            r matches Ok(v) ==> forall|i: int| 0 <= i < v@.len() ==> (#[trigger] v@[i]@).id is Some,
    {
        let conn = self.require_opened()?;
        let rows = storage(
            query(
                conn,
                "SELECT id, device_id, generation_id, name, firmware_label, firmware_time, last_seen,
                 meta_size, meta_records, data_size, data_records, battery_percentage,
                 battery_voltage, solar_voltage, status FROM station ORDER BY id",
                &no_params(),
            ),
        )?;
        let v = stations_from_rows(&rows)?;
        assert forall|i: int| 0 <= i < v@.len() implies (#[trigger] v@[i]@).id is Some by {
            assert(station_of_row(rows@[i]@) == Some(v@[i]@));
        }
        Ok(v)
    }

    /// The station of a device, without modules; at most one, and always
    /// of that device.
    pub fn get_station_by_device_id(&self, device_id: &DeviceId) -> (r: Result<
        Option<Station>,
        DbError,
    >)
        ensures
            !self.is_open() ==> (r matches Err(e) && e is NotOpened),
            r matches Err(e) ==> (e is NotOpened ==> !self.is_open()) && !(e is DeviceMismatch),
            r matches Ok(Some(s)) ==> s@.device_id == device_id.0@ && s@.id is Some
                && s@.modules.len() == 0,
    {
        let conn = self.require_opened()?;
        let params = device_param(device_id);
        let rows = storage(
            query(
                conn,
                "SELECT id, device_id, generation_id, name, firmware_label, firmware_time, last_seen,
                 meta_size, meta_records, data_size, data_records, battery_percentage,
                 battery_voltage, solar_voltage, status FROM station WHERE device_id = ?",
                &params,
            ),
        )?;
        station_for_device(&rows, device_id)
    }

    /// Inserts a module that has no identity yet and belongs to a stored
    /// station; the result is the module with its new identity.
    pub fn add_module(&self, module: &Module) -> (r: Result<Module, DbError>)
        ensures
            !self.is_open() ==> (r matches Err(e) && e is NotOpened),
            r matches Err(e) ==> (e is NotOpened ==> !self.is_open()) && !(e is DeviceMismatch),
            self.is_open() && (module.id is Some || module.station_id is None) ==> (r matches Err(e)
                && e is SeriousBug),
            r matches Ok(m) ==> m@.id is Some && module.id is None && module.station_id is Some
                && m@ == (ModuleModel { id: m@.id, ..module@ }),
    {
        let conn = self.require_opened()?;
        if module.id.is_some() || module.station_id.is_none() {
            return Err(DbError::SeriousBug);
        }
        let params = module_params(module, None);
        let affected = storage(
            execute(
                conn,
                "INSERT INTO module (station_id, hardware_id, manufacturer, kind, version, flags,
                 position, key, path, configuration, removed)
                 VALUES (?, ?, ?, ?, ?, ?, ?, ?, ?, ?, ?)",
                &params,
            ),
        )?;
        expect_one_row(affected)?;
        let id = last_insert_rowid(conn);
        let mut m = module.duplicate();
        m.id = Some(id);
        Ok(m)
    }

    /// Overwrites the module row with the given identity; the module must
    /// have one, and an owning station.
    pub fn update_module(&self, module: &Module) -> (r: Result<Module, DbError>)
        ensures
            !self.is_open() ==> (r matches Err(e) && e is NotOpened),
            r matches Err(e) ==> (e is NotOpened ==> !self.is_open()) && !(e is DeviceMismatch),
            self.is_open() && (module.id is None || module.station_id is None) ==> (r matches Err(e)
                && e is SeriousBug),
            r matches Ok(m) ==> m@ == module@ && module.id is Some && module.station_id is Some,
    {
        let conn = self.require_opened()?;
        let id = match module.id {
            Some(id) => id,
            None => return Err(DbError::SeriousBug),
        };
        if module.station_id.is_none() {
            return Err(DbError::SeriousBug);
        }
        let params = module_params(module, Some(id));
        let affected = storage(
            execute(
                conn,
                "UPDATE module SET station_id = ?, hardware_id = ?, manufacturer = ?, kind = ?,
                 version = ?, flags = ?, position = ?, key = ?, path = ?, configuration = ?,
                 removed = ? WHERE id = ?",
                &params,
            ),
        )?;
        expect_one_row(affected)?;
        Ok(module.duplicate())
    }

    /// Every module of a station, tombstoned or not, without sensors.
    pub fn get_modules(&self, station_id: i64) -> (r: Result<Vec<Module>, DbError>)
        ensures
            !self.is_open() ==> (r matches Err(e) && e is NotOpened),
            r matches Err(e) ==> (e is NotOpened ==> !self.is_open()) && !(e is DeviceMismatch),
            r matches Ok(v) ==> forall|i: int| 0 <= i < v@.len() ==> (#[trigger] v@[i]@).id is Some
                && v@[i]@.sensors.len() == 0,
    {
        let conn = self.require_opened()?;
        let params = id_param(station_id);
        let rows = storage(
            query(
                conn,
                "SELECT id, station_id, hardware_id, manufacturer, kind, version, flags, position,
                 key, path, configuration, removed FROM module WHERE station_id = ? ORDER BY id",
                &params,
            ),
        )?;
        let v = modules_from_rows(&rows)?;
        assert forall|i: int| 0 <= i < v@.len() implies (#[trigger] v@[i]@).id is Some
            && v@[i]@.sensors.len() == 0 by {
            assert(module_of_row(rows@[i]@) == Some(v@[i]@));
        }
        Ok(v)
    }

    /// Inserts a sensor that has no identity yet and belongs to a stored
    /// module; the result is the sensor with its new identity.
    pub fn add_sensor(&self, sensor: &Sensor) -> (r: Result<Sensor, DbError>)
        ensures
            !self.is_open() ==> (r matches Err(e) && e is NotOpened),
            r matches Err(e) ==> (e is NotOpened ==> !self.is_open()) && !(e is DeviceMismatch),
            self.is_open() && sensor.id is None && sensor.module_id is Some && !reading_storable(
                sensor.value,
            ) ==> (r matches Err(e) && e is InvalidTimestamp),
            r matches Err(e) ==> (e is InvalidTimestamp ==> !reading_storable(sensor.value)),
            self.is_open() && (sensor.id is Some || sensor.module_id is None) ==> (r matches Err(e)
                && e is SeriousBug),
            r matches Ok(s) ==> s@.id is Some && sensor.id is None && sensor.module_id is Some
                && s@ == (SensorModel { id: s@.id, ..sensor@ }),
    {
        let conn = self.require_opened()?;
        if sensor.id.is_some() || sensor.module_id.is_none() {
            return Err(DbError::SeriousBug);
        }
        let params = sensor_params(sensor, None)?;
        let affected = storage(
            execute(
                conn,
                "INSERT INTO sensor (module_id, number, flags, key, calibrated_uom,
                 uncalibrated_uom, reading_time, calibrated_value, uncalibrated_value, removed)
                 VALUES (?, ?, ?, ?, ?, ?, ?, ?, ?, ?)",
                &params,
            ),
        )?;
        expect_one_row(affected)?;
        let id = last_insert_rowid(conn);
        let mut s = sensor.duplicate();
        s.id = Some(id);
        Ok(s)
    }

    /// Overwrites the sensor row with the given identity; the sensor must
    /// have one, and an owning module.
    pub fn update_sensor(&self, sensor: &Sensor) -> (r: Result<Sensor, DbError>)
        ensures
            !self.is_open() ==> (r matches Err(e) && e is NotOpened),
            r matches Err(e) ==> (e is NotOpened ==> !self.is_open()) && !(e is DeviceMismatch),
            self.is_open() && sensor.id is Some && sensor.module_id is Some && !reading_storable(
                sensor.value,
            ) ==> (r matches Err(e) && e is InvalidTimestamp),
            r matches Err(e) ==> (e is InvalidTimestamp ==> !reading_storable(sensor.value)),
            self.is_open() && (sensor.id is None || sensor.module_id is None) ==> (r matches Err(e)
                && e is SeriousBug),
            r matches Ok(s) ==> s@ == sensor@ && sensor.id is Some && sensor.module_id is Some,
    {
        let conn = self.require_opened()?;
        let id = match sensor.id {
            Some(id) => id,
            None => return Err(DbError::SeriousBug),
        };
        if sensor.module_id.is_none() {
            return Err(DbError::SeriousBug);
        }
        let params = sensor_params(sensor, Some(id))?;
        let affected = storage(
            execute(
                conn,
                "UPDATE sensor SET number = ?, flags = ?, key = ?, calibrated_uom = ?,
                 uncalibrated_uom = ?, reading_time = ?, calibrated_value = ?,
                 uncalibrated_value = ?, removed = ? WHERE id = ?",
                &params,
            ),
        )?;
        expect_one_row(affected)?;
        Ok(sensor.duplicate())
    }

    /// Every sensor of a module, tombstoned or not.
    pub fn get_sensors(&self, module_id: i64) -> (r: Result<Vec<Sensor>, DbError>)
        ensures
            !self.is_open() ==> (r matches Err(e) && e is NotOpened),
            r matches Err(e) ==> (e is NotOpened ==> !self.is_open()) && !(e is DeviceMismatch),
            r matches Ok(v) ==> forall|i: int| 0 <= i < v@.len() ==> (#[trigger] v@[i]@).id is Some,
    {
        let conn = self.require_opened()?;
        let params = id_param(module_id);
        let rows = storage(
            query(
                conn,
                "SELECT id, module_id, number, flags, key, calibrated_uom, uncalibrated_uom,
                 reading_time, calibrated_value, uncalibrated_value, removed
                 FROM sensor WHERE module_id = ? ORDER BY id",
                &params,
            ),
        )?;
        let v = sensors_from_rows(&rows)?;
        assert forall|i: int| 0 <= i < v@.len() implies (#[trigger] v@[i]@).id is Some by {
            assert(sensor_of_row(rows@[i]@) == Some(v@[i]@));
        }
        Ok(v)
    }

    /// Appends a ledger entry; the result is the entry with its new
    /// identity.
    pub fn add_station_download(&self, download: &StationDownload) -> (r: Result<
        StationDownload,
        DbError,
    >)
        ensures
            !self.is_open() ==> (r matches Err(e) && e is NotOpened),
            r matches Err(e) ==> (e is NotOpened ==> !self.is_open()) && !(e is DeviceMismatch),
            self.is_open() && !download_storable(download@) ==> (r matches Err(e)
                && e is InvalidTimestamp),
            r matches Err(e) ==> (e is InvalidTimestamp ==> !download_storable(download@)),
            r matches Ok(d) ==> d@.id is Some && d@ == (crate::model::DownloadModel {
                id: d@.id,
                ..download@
            }),
    {
        let conn = self.require_opened()?;
        let params = download_params(download, None)?;
        let affected = storage(
            execute(
                conn,
                "INSERT INTO station_download (station_id, generation_id, started, begin, end, path,
                 uploaded, finished, size, error) VALUES (?, ?, ?, ?, ?, ?, ?, ?, ?, ?)",
                &params,
            ),
        )?;
        expect_one_row(affected)?;
        let id = last_insert_rowid(conn);
        let mut d = download.duplicate();
        d.id = Some(id);
        Ok(d)
    }

    /// Overwrites the ledger entry with the given identity.
    pub fn update_station_download(&self, download: &StationDownload) -> (r: Result<
        StationDownload,
        DbError,
    >)
        ensures
            !self.is_open() ==> (r matches Err(e) && e is NotOpened),
            r matches Err(e) ==> (e is NotOpened ==> !self.is_open()) && !(e is DeviceMismatch),
            self.is_open() && download.id is Some && !download_storable(download@) ==> (r matches Err(
                e,
            ) && e is InvalidTimestamp),
            r matches Err(e) ==> (e is InvalidTimestamp ==> !download_storable(download@)),
            self.is_open() && download.id is None ==> (r matches Err(e) && e is SeriousBug),
            r matches Ok(d) ==> d@ == download@ && download.id is Some,
    {
        let conn = self.require_opened()?;
        let id = match download.id {
            Some(id) => id,
            None => return Err(DbError::SeriousBug),
        };
        let params = download_params(download, Some(id))?;
        let affected = storage(
            execute(
                conn,
                "UPDATE station_download SET station_id = ?, generation_id = ?, started = ?,
                 begin = ?, end = ?, path = ?, uploaded = ?, finished = ?, size = ?, error = ?
                 WHERE id = ?",
                &params,
            ),
        )?;
        expect_one_row(affected)?;
        Ok(download.duplicate())
    }

    /// Every ledger entry of a station.
    pub fn get_station_downloads(&self, station_id: i64) -> (r: Result<
        Vec<StationDownload>,
        DbError,
    >)
        ensures
            !self.is_open() ==> (r matches Err(e) && e is NotOpened),
            r matches Err(e) ==> (e is NotOpened ==> !self.is_open()) && !(e is DeviceMismatch),
            r matches Ok(v) ==> forall|i: int| 0 <= i < v@.len() ==> (#[trigger] v@[i]@).id is Some,
    {
        let conn = self.require_opened()?;
        let params = id_param(station_id);
        let rows = storage(
            query(
                conn,
                "SELECT id, station_id, generation_id, started, begin, end, path, uploaded,
                 finished, size, error FROM station_download WHERE station_id = ? ORDER BY id",
                &params,
            ),
        )?;
        let v = downloads_from_rows(&rows)?;
        assert forall|i: int| 0 <= i < v@.len() implies (#[trigger] v@[i]@).id is Some by {
            assert(download_of_row(rows@[i]@) == Some(v@[i]@));
        }
        Ok(v)
    }

    /// The stored aggregate of a device: its station, its active modules
    /// (tombstoned ones are left out) and all of their sensors (tombstoned
    /// ones included). `None` when the device was never stored.
    pub fn hydrate_station(&self, device_id: &DeviceId) -> (r: Result<Option<Station>, DbError>)
        ensures
            !self.is_open() ==> (r matches Err(e) && e is NotOpened),
            r matches Err(e) ==> (e is NotOpened ==> !self.is_open()) && !(e is DeviceMismatch),
            r matches Ok(Some(h)) ==> hydration_of(h@, device_id.0@),
    {
        let station = match self.get_station_by_device_id(device_id)? {
            Some(s) => s,
            None => return Ok(None),
        };
        let station_id = match station.id {
            Some(id) => id,
            None => return Err(DbError::SeriousBug),
        };
        let stored = self.get_modules(station_id)?;
        let active = filter_active(&stored);
        let ghost am = modules_view(active@);
        proof {
            lemma_active_modules(modules_view(stored@));
        }
        let mut modules: Vec<Module> = Vec::new();
        let ghost mut ss: Seq<Seq<SensorModel>> = Seq::empty();
        let mut i: usize = 0;
        while i < active.len()
            invariant
                i <= active@.len(),
                self.is_open(),
                am == modules_view(active@),
                am == active_modules(modules_view(stored@)),
                forall|k: int| 0 <= k < am.len() ==> !(#[trigger] am[k]).removed && am[k].id is Some,
                modules@.len() == i,
                ss.len() == i,
                forall|k: int|
                    0 <= k < i ==> (#[trigger] modules@[k])@ == (ModuleModel {
                        sensors: ss[k],
                        ..am[k]
                    }),
                forall|k: int, j: int|
                    0 <= k < ss.len() && 0 <= j < ss[k].len() ==> (#[trigger] ss[k][j]).id is Some,
            decreases active.len() - i,
        {
            let mut m = active[i].duplicate();
            let module_id = match m.id {
                Some(id) => id,
                None => return Err(DbError::SeriousBug),
            };
            let sensors = self.get_sensors(module_id)?;
            proof {
                ss = ss.push(sensors_view(sensors@));
            }
            m.sensors = sensors;
            modules.push(m);
            i += 1;
        }
        let h = Station { modules, ..station };
        proof {
            assert(modules_view(modules@) =~= with_sensors(am, ss));
            assert(hydrated_from(h@, station@, modules_view(stored@), ss));
            assert(hydrated(h@, device_id.0@)) by {
                assert forall|k: int| 0 <= k < h@.modules.len() implies !(
                #[trigger] h@.modules[k]).removed && h@.modules[k].id is Some by {
                    assert(h@.modules[k] == modules@[k]@);
                }
            }
        }
        Ok(Some(h))
    }

    /// Writes one module and its sensors under the given station: updates
    /// what has an identity, inserts the rest.
    fn persist_module(&self, module: &Module, station_id: i64) -> (r: Result<Module, DbError>)
        ensures
            !self.is_open() ==> (r matches Err(e) && e is NotOpened),
            r matches Err(e) ==> (e is NotOpened ==> !self.is_open()) && !(e is DeviceMismatch),
            r matches Ok(p) ==> persisted_module(module@, p@, station_id),
    {
        let mut m = module.duplicate();
        m.station_id = Some(station_id);
        let saved = if m.id.is_some() {
            self.update_module(&m)?
        } else {
            self.add_module(&m)?
        };
        let module_id = match saved.id {
            Some(id) => id,
            None => return Err(DbError::SeriousBug),
        };
        let mut sensors: Vec<Sensor> = Vec::new();
        let mut i: usize = 0;
        while i < module.sensors.len()
            invariant
                i <= module.sensors@.len(),
                sensors@.len() == i,
                forall|k: int|
                    0 <= k < i ==> persisted_sensor(
                        module.sensors@[k]@,
                        #[trigger] sensors@[k]@,
                        module_id,
                    ),
            decreases module.sensors.len() - i,
        {
            let mut s = module.sensors[i].duplicate();
            s.module_id = Some(module_id);
            let written = if s.id.is_some() {
                self.update_sensor(&s)?
            } else {
                self.add_sensor(&s)?
            };
            sensors.push(written);
            i += 1;
        }
        let p = Module { sensors, ..saved };
        assert(p@.sensors.len() == module@.sensors.len());
        assert forall|k: int| 0 <= k < module@.sensors.len() implies persisted_sensor(
            module@.sensors[k],
            #[trigger] p@.sensors[k],
            p@.id->0,
        ) by {
            assert(module@.sensors[k] == module.sensors@[k]@);
            assert(p@.sensors[k] == sensors@[k]@);
        }
        assert(p@ == (ModuleModel { id: p@.id, station_id: Some(station_id), sensors: p@.sensors, ..module@ }));
        Ok(p)
    }

    /// Writes an aggregate: the station, then each module under it, then
    /// each sensor under its module. What has an identity is updated, the
    /// rest is inserted; the result carries every identity.
    pub fn persist_station(&self, station: &Station) -> (r: Result<Station, DbError>)
        ensures
            !self.is_open() ==> (r matches Err(e) && e is NotOpened),
            r matches Err(e) ==> (e is NotOpened ==> !self.is_open()) && !(e is DeviceMismatch),
            r matches Ok(p) ==> persisted_station(station@, p@),
    {
        let saved = if station.id.is_some() {
            self.update_station(station)?
        } else {
            self.add_station(station)?
        };
        let station_id = match saved.id {
            Some(id) => id,
            None => return Err(DbError::SeriousBug),
        };
        let mut modules: Vec<Module> = Vec::new();
        let mut i: usize = 0;
        while i < station.modules.len()
            invariant
                i <= station.modules@.len(),
                modules@.len() == i,
                forall|k: int|
                    0 <= k < i ==> persisted_module(
                        station.modules@[k]@,
                        #[trigger] modules@[k]@,
                        station_id,
                    ),
            decreases station.modules.len() - i,
        {
            let m = self.persist_module(&station.modules[i], station_id)?;
            modules.push(m);
            i += 1;
        }
        let p = Station { modules, ..saved };
        assert forall|k: int| 0 <= k < station@.modules.len() implies persisted_module(
            station@.modules[k],
            #[trigger] p@.modules[k],
            p@.id->0,
        ) by {
            assert(station@.modules[k] == station.modules@[k]@);
            assert(p@.modules[k] == modules@[k]@);
        }
        assert(p@ == (StationModel { id: p@.id, modules: p@.modules, ..station@ }));
        Ok(p)
    }

    /// Hydrates, merges and persists, without a transaction of its own.
    fn reconcile(&self, incoming: Station) -> (r: Result<Station, DbError>)
        ensures
            !self.is_open() ==> (r matches Err(e) && e is NotOpened),
            r matches Err(e) ==> (e is NotOpened ==> !self.is_open()) && !(e is DeviceMismatch),
            r matches Ok(p) ==> exists|e: Option<StationModel>|
                (e matches Some(h) ==> hydration_of(h, incoming@.device_id)) && persisted_station(
                    #[trigger] merge_station(e, incoming@),
                    p@,
                ),
    {
        let ghost inc = incoming@;
        let existing = self.hydrate_station(&incoming.device_id)?;
        let ghost ev = station_view(existing);
        let saving = merge(existing, incoming);
        let saved = self.persist_station(&saving)?;
        assert(persisted_station(merge_station(ev, inc), saved@));
        Ok(saved)
    }

    /// Reconciles an incoming report with the stored aggregate of its
    /// device and stores the result, in one transaction that is rolled
    /// back on any failure. The result is the stored aggregate: the merge
    /// of what hydration found (if anything) with the report, with every
    /// identity assigned.
    pub fn synchornize(&self, incoming: Station) -> (r: Result<Station, DbError>)
        ensures
            !self.is_open() ==> (r matches Err(e) && e is NotOpened),
            r matches Err(e) ==> (e is NotOpened ==> !self.is_open()) && !(e is DeviceMismatch),
            r matches Ok(p) ==> exists|e: Option<StationModel>|
                (e matches Some(h) ==> hydration_of(h, incoming@.device_id)) && persisted_station(
                    #[trigger] merge_station(e, incoming@),
                    p@,
                ),
    {
        let conn = self.require_opened()?;
        storage(execute_batch(conn, "BEGIN IMMEDIATE;"))?;
        match self.reconcile(incoming) {
            Ok(saved) => match execute_batch(conn, "COMMIT;") {
                Ok(()) => Ok(saved),
                Err(e) => {
                    let _ = execute_batch(conn, "ROLLBACK;");
                    Err(DbError::Storage(e))
                },
            },
            Err(e) => {
                let _ = execute_batch(conn, "ROLLBACK;");
                Err(e)
            },
        }
    }

    /// Synchronizes a report that is expected to come from `device_id`; a
    /// report of another device is refused before anything is written.
    pub fn merge_reply(&self, device_id: DeviceId, incoming: Station) -> (r: Result<
        Station,
        DbError,
    >)
        ensures
            device_id.0@ != incoming@.device_id ==> (r matches Err(e) && e is DeviceMismatch),
            device_id.0@ == incoming@.device_id && !self.is_open() ==> (r matches Err(e)
                && e is NotOpened),
            r matches Err(e) ==> (e is NotOpened ==> !self.is_open()) && (e is DeviceMismatch
                ==> device_id.0@ != incoming@.device_id),
            r matches Ok(p) ==> device_id.0@ == incoming@.device_id && exists|e: Option<
                StationModel,
            >|
                (e matches Some(h) ==> hydration_of(h, incoming@.device_id)) && persisted_station(
                    #[trigger] merge_station(e, incoming@),
                    p@,
                ),
    {
        if !device_id.0.eq(&incoming.device_id.0) {
            return Err(DbError::DeviceMismatch);
        }
        self.synchornize(incoming)
    }
}

} // verus!

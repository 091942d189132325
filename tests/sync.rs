use store::columns::decode_timestamp;
use store::db::{expect_one_row, filter_active, id_param, stations_from_rows, station_for_device};
use store::migrations::{first_pending, pending_steps, AGGREGATE_SCHEMA, DOWNLOAD_SCHEMA, LATEST_VERSION};
use store::sql::SqlValue;
use store::{
    merge, Battery, Db, DbError, DeviceId, Firmware, LiveValue, Module, ModuleHeader, Sensor,
    Solar, Station, StationDownload, Stream, Timestamp,
};

fn at(secs: i64, nanos: u32) -> Timestamp {
    Timestamp::new(secs, nanos).unwrap()
}

fn sensor(key: &str) -> Sensor {
    Sensor {
        id: None,
        module_id: None,
        number: 1,
        flags: 0,
        key: key.to_owned(),
        calibrated_uom: "C".to_owned(),
        uncalibrated_uom: "mV".to_owned(),
        value: Some(LiveValue {
            time: at(1_600_000_000, 1),
            value_bits: 21.5f32.to_bits(),
            uncalibrated_bits: 812.0f32.to_bits(),
        }),
        removed: false,
    }
}

fn module(key: &str, sensors: &[&str]) -> Module {
    Module {
        id: None,
        station_id: None,
        hardware_id: format!("hw-{}", key),
        header: ModuleHeader { manufacturer: 1, kind: 2, version: 3 },
        flags: 0,
        position: 0,
        key: key.to_owned(),
        path: "/modules".to_owned(),
        configuration: vec![9, 8],
        removed: false,
        sensors: sensors.iter().map(|s| sensor(s)).collect(),
    }
}

fn report(name: &str, modules: &[&str]) -> Station {
    Station {
        id: None,
        device_id: DeviceId("device-7".to_owned()),
        generation_id: "generation-0".to_owned(),
        name: name.to_owned(),
        firmware: Firmware { label: "fw".to_owned(), time: 5 },
        last_seen: at(1_600_000_000, 123_456_789),
        meta: Stream { size: 1, records: 2 },
        data: Stream { size: 3, records: 4 },
        battery: Battery { percentage_bits: 50.0f32.to_bits(), voltage_bits: 3.7f32.to_bits() },
        solar: Solar { voltage_bits: 0.0f32.to_bits() },
        status: 1,
        modules: modules.iter().map(|k| module(k, &["sensor-0", "sensor-1"])).collect(),
    }
}

fn opened() -> Db {
    let mut db = Db::new();
    db.open().unwrap();
    db
}

fn ids(s: &Station) -> Vec<(Option<i64>, bool, Vec<(Option<i64>, bool)>)> {
    s.modules
        .iter()
        .map(|m| (m.id, m.removed, m.sensors.iter().map(|x| (x.id, x.removed)).collect()))
        .collect()
}

#[test]
fn resync_of_same_report_keeps_every_identity() {
    let db = opened();
    let first = db.synchornize(report("Hoppy Kangaroo", &["basic-0", "basic-1"])).unwrap();
    let second = db.synchornize(report("Hoppy Kangaroo", &["basic-0", "basic-1"])).unwrap();
    assert_eq!(first.id, second.id);
    assert_eq!(ids(&first), ids(&second));
    assert_eq!(second.modules.len(), 2);
    assert_eq!(db.get_stations().unwrap().len(), 1);
}

#[test]
fn first_sync_assigns_every_identity() {
    let db = opened();
    let saved = db.synchornize(report("Hoppy Kangaroo", &["basic-0", "basic-1"])).unwrap();
    assert!(saved.id.is_some());
    assert_eq!(saved.modules.len(), 2);
    for m in &saved.modules {
        assert!(m.id.is_some());
        assert_eq!(m.station_id, saved.id);
        assert_eq!(m.sensors.len(), 2);
        for s in &m.sensors {
            assert!(s.id.is_some());
            assert_eq!(s.module_id, m.id);
        }
    }
}

#[test]
fn name_change_keeps_station_and_module_identity() {
    let db = opened();
    let first = db.synchornize(report("Hoppy Kangaroo", &["module-0"])).unwrap();
    let second = db.synchornize(report("Tired Kangaroo", &["module-0"])).unwrap();
    assert_eq!(first.id, second.id);
    assert_eq!(first.modules[0].id, second.modules[0].id);
    assert_eq!(second.name, "Tired Kangaroo");
    let stored = db.get_stations().unwrap();
    assert_eq!(stored[0].name, "Tired Kangaroo");
}

#[test]
fn vanished_module_is_tombstoned_then_left_out() {
    let db = opened();
    let first = db.synchornize(report("Hoppy Kangaroo", &["basic-0"])).unwrap();
    let second = db.synchornize(report("Hoppy Kangaroo", &[])).unwrap();
    assert_eq!(second.modules.len(), 1);
    assert!(second.modules[0].removed);
    assert_eq!(second.modules[0].id, first.modules[0].id);
    let stored = db.get_modules(first.id.unwrap()).unwrap();
    assert_eq!(stored.len(), 1);
    assert!(stored[0].removed);
    let third = db.synchornize(report("Hoppy Kangaroo", &[])).unwrap();
    assert_eq!(third.modules.len(), 0);
    let hydrated = db.hydrate_station(&DeviceId("device-7".to_owned())).unwrap().unwrap();
    assert_eq!(hydrated.modules.len(), 0);
}

#[test]
fn reappearing_module_gets_new_identity() {
    let db = opened();
    let first = db.synchornize(report("Hoppy Kangaroo", &["basic-0"])).unwrap();
    db.synchornize(report("Hoppy Kangaroo", &[])).unwrap();
    let third = db.synchornize(report("Hoppy Kangaroo", &["basic-0"])).unwrap();
    assert_eq!(third.modules.len(), 1);
    assert!(!third.modules[0].removed);
    assert_ne!(third.modules[0].id, first.modules[0].id);
}

#[test]
fn added_module_is_additive() {
    let db = opened();
    let first = db.synchornize(report("Hoppy Kangaroo", &["basic-0"])).unwrap();
    let second = db.synchornize(report("Hoppy Kangaroo", &["basic-0", "basic-1"])).unwrap();
    assert_eq!(second.modules.len(), 2);
    assert_eq!(second.modules[0].key, "basic-0");
    assert_eq!(second.modules[0].id, first.modules[0].id);
    assert_eq!(second.modules[1].key, "basic-1");
    assert!(second.modules[1].id.is_some());
    assert_ne!(second.modules[1].id, first.modules[0].id);
}

#[test]
fn vanished_sensor_is_tombstoned_with_its_reading() {
    let db = opened();
    let first = db.synchornize(report("Hoppy Kangaroo", &["basic-0"])).unwrap();
    let mut incoming = report("Hoppy Kangaroo", &["basic-0"]);
    incoming.modules[0].sensors.remove(1);
    let second = db.synchornize(incoming).unwrap();
    let sensors = &second.modules[0].sensors;
    assert_eq!(sensors.len(), 2);
    assert_eq!(sensors[0].id, first.modules[0].sensors[0].id);
    assert!(!sensors[0].removed);
    assert_eq!(sensors[1].id, first.modules[0].sensors[1].id);
    assert!(sensors[1].removed);
    assert_eq!(sensors[1].value, first.modules[0].sensors[1].value);
}

#[test]
fn station_by_device_is_single_after_many_syncs() {
    let db = opened();
    for _ in 0..3 {
        db.synchornize(report("Hoppy Kangaroo", &["basic-0"])).unwrap();
    }
    let found = db.get_station_by_device_id(&DeviceId("device-7".to_owned())).unwrap();
    assert_eq!(found.unwrap().device_id.0, "device-7");
    assert_eq!(db.get_stations().unwrap().len(), 1);
    let none = db.get_station_by_device_id(&DeviceId("device-8".to_owned())).unwrap();
    assert!(none.is_none());
}

#[test]
fn timestamps_read_back_exactly() {
    let db = opened();
    let saved = db.synchornize(report("Hoppy Kangaroo", &["basic-0"])).unwrap();
    let station = db.get_station_by_device_id(&DeviceId("device-7".to_owned())).unwrap().unwrap();
    assert_eq!(station.last_seen, at(1_600_000_000, 123_456_789));
    let sensors = db.get_sensors(saved.modules[0].id.unwrap()).unwrap();
    assert_eq!(sensors[0].value.unwrap().time, at(1_600_000_000, 1));
    assert_eq!(sensors[0].value.unwrap().value_bits, 21.5f32.to_bits());
}

#[test]
fn timestamp_text_is_rfc3339() {
    let t = at(1_600_000_000, 123_456_789);
    assert_eq!(t.to_rfc3339(), "2020-09-13T12:26:40.123456789+00:00");
    assert_eq!(at(0, 0).to_rfc3339(), "1970-01-01T00:00:00+00:00");
    let text = t.to_rfc3339();
    assert_eq!(Timestamp::from_rfc3339(&text), Some(t));
    assert_eq!(decode_timestamp(&text).unwrap(), t);
}

#[test]
fn noncanonical_timestamp_text_is_a_decode_error() {
    let text = "2020-09-13T14:26:40+02:00".to_owned();
    assert_eq!(Timestamp::from_rfc3339(&text), None);
    assert!(matches!(decode_timestamp(&text), Err(DbError::Decode)));
    assert!(matches!(decode_timestamp(&"yesterday".to_owned()), Err(DbError::Decode)));
}

#[test]
fn timestamp_range_is_years_0000_to_9999() {
    assert!(Timestamp::new(253_402_300_799, 999_999_999).is_some());
    assert!(Timestamp::new(253_402_300_800, 0).is_none());
    assert!(Timestamp::new(-62_167_219_200, 0).is_some());
    assert!(Timestamp::new(-62_167_219_201, 0).is_none());
    assert!(Timestamp::new(0, 1_000_000_000).is_none());
    let last = Timestamp::new(253_402_300_799, 999_999_999).unwrap();
    assert_eq!(last.to_rfc3339(), "9999-12-31T23:59:59.999999999+00:00");
    assert_eq!(Timestamp::from_rfc3339(&last.to_rfc3339()), Some(last));
}

#[test]
fn download_finish_reads_back_exactly() {
    let db = opened();
    let station = db.add_station(&report("Hoppy Kangaroo", &[])).unwrap();
    let mut added = db
        .add_station_download(&StationDownload {
            id: None,
            station_id: station.id,
            generation_id: "generation-0".to_owned(),
            started: at(1_600_000_100, 5),
            begin: 0,
            end: 4096,
            path: "/tmp/download".to_owned(),
            uploaded: Some(10),
            finished: None,
            size: None,
            error: Some("partial".to_owned()),
        })
        .unwrap();
    added.finished = Some(at(1_600_000_200, 987_654_321));
    added.size = Some(4096);
    db.update_station_download(&added).unwrap();
    let stored = db.get_station_downloads(station.id.unwrap()).unwrap();
    assert_eq!(stored.len(), 1);
    assert_eq!(stored[0].id, added.id);
    assert_eq!(stored[0].started, at(1_600_000_100, 5));
    assert_eq!(stored[0].finished, Some(at(1_600_000_200, 987_654_321)));
    assert_eq!(stored[0].size, Some(4096));
    assert_eq!(stored[0].error.as_deref(), Some("partial"));
}

#[test]
fn merge_without_existing_returns_report() {
    let incoming = report("Hoppy Kangaroo", &["basic-0"]);
    let merged = merge(None, incoming);
    assert_eq!(merged.id, None);
    assert_eq!(merged.modules.len(), 1);
    assert_eq!(merged.modules[0].id, None);
}

#[test]
fn merge_keeps_stored_identities() {
    let mut existing = report("Hoppy Kangaroo", &["basic-0", "gone"]);
    existing.id = Some(4);
    existing.modules[0].id = Some(10);
    existing.modules[0].station_id = Some(4);
    existing.modules[0].sensors[0].id = Some(100);
    existing.modules[1].id = Some(11);
    let incoming = report("Tired Kangaroo", &["basic-0", "new"]);
    let merged = merge(Some(existing), incoming);
    assert_eq!(merged.id, Some(4));
    assert_eq!(merged.name, "Tired Kangaroo");
    assert_eq!(merged.modules.len(), 3);
    assert_eq!((merged.modules[0].id, merged.modules[0].removed), (Some(10), false));
    assert_eq!(merged.modules[0].station_id, Some(4));
    assert_eq!(merged.modules[0].sensors[0].id, Some(100));
    assert_eq!((merged.modules[1].id, merged.modules[1].key.as_str()), (None, "new"));
    assert_eq!((merged.modules[2].id, merged.modules[2].removed), (Some(11), true));
}

#[test]
fn use_before_open_is_not_opened() {
    let db = Db::new();
    assert!(matches!(db.get_stations(), Err(DbError::NotOpened)));
    assert!(matches!(db.synchornize(report("a", &[])), Err(DbError::NotOpened)));
    assert!(matches!(db.require_opened(), Err(DbError::NotOpened)));
}

#[test]
fn update_without_identity_is_serious_bug() {
    let db = opened();
    assert!(matches!(db.update_station(&report("a", &[])), Err(DbError::SeriousBug)));
    let mut missing = report("a", &[]);
    missing.id = Some(999);
    assert!(matches!(db.update_station(&missing), Err(DbError::SeriousBug)));
    let mut m = module("m", &[]);
    m.id = Some(1);
    assert!(matches!(db.add_module(&m), Err(DbError::SeriousBug)));
    assert!(matches!(db.add_sensor(&sensor("s")), Err(DbError::SeriousBug)));
    assert!(expect_one_row(1).is_ok());
    assert!(matches!(expect_one_row(0), Err(DbError::SeriousBug)));
    assert!(matches!(expect_one_row(2), Err(DbError::SeriousBug)));
}

#[test]
fn unstorable_timestamp_is_refused() {
    let db = opened();
    let mut s = report("a", &[]);
    s.last_seen = Timestamp { secs: 253_402_300_800, nanos: 0 };
    assert!(matches!(db.add_station(&s), Err(DbError::InvalidTimestamp)));
    assert_eq!(db.get_stations().unwrap().len(), 0);
}

#[test]
fn report_of_other_device_is_refused() {
    let db = opened();
    let r = db.merge_reply(DeviceId("device-8".to_owned()), report("a", &["basic-0"]));
    assert!(matches!(r, Err(DbError::DeviceMismatch)));
    assert_eq!(db.get_stations().unwrap().len(), 0);
    let ok = db.merge_reply(DeviceId("device-7".to_owned()), report("a", &["basic-0"])).unwrap();
    assert!(ok.id.is_some());
}

#[test]
fn duplicate_device_is_a_storage_error() {
    let db = opened();
    db.add_station(&report("a", &[])).unwrap();
    assert!(matches!(db.add_station(&report("b", &[])), Err(DbError::Storage(_))));
}

#[test]
fn malformed_rows_are_decode_errors() {
    let rows = vec![vec![SqlValue::Integer(1), SqlValue::Null]];
    assert!(matches!(stations_from_rows(&rows), Err(DbError::Decode)));
    let empty: Vec<Vec<SqlValue>> = Vec::new();
    assert_eq!(stations_from_rows(&empty).unwrap().len(), 0);
    assert!(station_for_device(&empty, &DeviceId("x".to_owned())).unwrap().is_none());
}

#[test]
fn schema_versions() {
    assert_eq!(first_pending(0).unwrap(), 0);
    assert_eq!(first_pending(LATEST_VERSION as i64).unwrap(), LATEST_VERSION);
    assert!(matches!(first_pending(LATEST_VERSION as i64 + 1), Err(DbError::UnknownSchema)));
    assert!(matches!(first_pending(-1), Err(DbError::UnknownSchema)));
}

#[test]
fn pending_steps_follow_the_version() {
    let all = pending_steps(0).unwrap();
    assert_eq!(all, vec![AGGREGATE_SCHEMA, DOWNLOAD_SCHEMA]);
    assert_eq!(pending_steps(1).unwrap(), vec![DOWNLOAD_SCHEMA]);
    assert!(pending_steps(2).unwrap().is_empty());
    assert!(matches!(pending_steps(3), Err(DbError::UnknownSchema)));
}

#[test]
fn reopening_a_migrated_handle_is_a_no_op() {
    let mut db = opened();
    assert!(db.open().is_ok());
    assert_eq!(db.get_stations().unwrap().len(), 0);
}

#[test]
fn sensor_update_leaves_owning_module() {
    let db = opened();
    let saved = db.synchornize(report("Hoppy Kangaroo", &["basic-0", "basic-1"])).unwrap();
    let owner = saved.modules[0].id.unwrap();
    let mut s = saved.modules[0].sensors[0].clone();
    s.module_id = saved.modules[1].id;
    s.key = "renamed-sensor-0".to_owned();
    db.update_sensor(&s).unwrap();
    let sensors = db.get_sensors(owner).unwrap();
    assert_eq!(sensors.len(), 2);
    assert_eq!(sensors[0].key, "renamed-sensor-0");
    assert_eq!(sensors[0].module_id, Some(owner));
}

#[test]
fn hydration_is_stored_station_with_active_modules_and_all_sensors() {
    let db = opened();
    db.synchornize(report("Hoppy Kangaroo", &["basic-0", "basic-1"])).unwrap();
    let mut incoming = report("Tired Kangaroo", &["basic-1"]);
    incoming.modules[0].sensors.remove(0);
    let second = db.synchornize(incoming).unwrap();
    let h = db.hydrate_station(&DeviceId("device-7".to_owned())).unwrap().unwrap();
    assert_eq!(h.id, second.id);
    assert_eq!(h.name, "Tired Kangaroo");
    assert_eq!(h.last_seen, at(1_600_000_000, 123_456_789));
    assert_eq!(h.modules.len(), 1);
    assert_eq!(h.modules[0].key, "basic-1");
    assert_eq!(h.modules[0].sensors.len(), 2);
    assert_eq!(h.modules[0].sensors.iter().filter(|s| s.removed).count(), 1);
}

#[test]
fn filter_active_drops_tombstones_in_order() {
    let mut a = module("a", &[]);
    a.removed = true;
    let b = module("b", &[]);
    let c = module("c", &[]);
    let kept = filter_active(&vec![a, b, c]);
    let keys: Vec<&str> = kept.iter().map(|m| m.key.as_str()).collect();
    assert_eq!(keys, vec!["b", "c"]);
    assert!(matches!(id_param(4)[0], store::sql::SqlParam::Integer(4)));
}

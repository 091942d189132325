use store::{
    Battery, Db, DeviceId, Firmware, LiveValue, Module, ModuleHeader, Sensor,
    Solar, Station, StationDownload, Stream, Timestamp,
};

fn at(secs: i64, nanos: u32) -> Timestamp {
    Timestamp::new(secs, nanos).unwrap()
}

fn sensor(key: &str) -> Sensor {
    Sensor {
        id: None,
        module_id: None,
        number: 0,
        flags: 0,
        key: key.to_owned(),
        calibrated_uom: "C".to_owned(),
        uncalibrated_uom: "mV".to_owned(),
        value: Some(LiveValue {
            time: at(1_600_000_000, 250_000_000),
            value_bits: 21.5f32.to_bits(),
            uncalibrated_bits: 812.0f32.to_bits(),
        }),
        removed: false,
    }
}

fn module(key: &str) -> Module {
    Module {
        id: None,
        station_id: None,
        hardware_id: "module-0".to_owned(),
        header: ModuleHeader { manufacturer: 1, kind: 2, version: 3 },
        flags: 0,
        position: 0,
        key: key.to_owned(),
        path: "/modules/0".to_owned(),
        configuration: vec![1, 2, 3],
        removed: false,
        sensors: Vec::new(),
    }
}

fn basic_module(key: &str) -> Module {
    let mut m = module(key);
    m.sensors = vec![sensor("sensor-0"), sensor("sensor-1")];
    m
}

fn station() -> Station {
    Station {
        id: None,
        device_id: DeviceId("device-0".to_owned()),
        generation_id: "generation-0".to_owned(),
        name: "Hoppy Kangaroo".to_owned(),
        firmware: Firmware { label: "firmware-0".to_owned(), time: 1_590_000_000 },
        last_seen: at(1_600_000_000, 123_456_789),
        meta: Stream { size: 100, records: 2 },
        data: Stream { size: 2048, records: 40 },
        battery: Battery { percentage_bits: 88.0f32.to_bits(), voltage_bits: 3.9f32.to_bits() },
        solar: Solar { voltage_bits: 4.2f32.to_bits() },
        status: 0,
        modules: Vec::new(),
    }
}

fn station_with(keys: &[&str]) -> Station {
    let mut s = station();
    s.modules = keys.iter().map(|k| basic_module(k)).collect();
    s
}

fn download(station_id: Option<i64>) -> StationDownload {
    StationDownload {
        id: None,
        station_id,
        generation_id: "generation-0".to_owned(),
        started: at(1_600_000_100, 5),
        begin: 0,
        end: 1024,
        path: "/data/download-0".to_owned(),
        uploaded: None,
        finished: None,
        size: None,
        error: None,
    }
}

fn opened() -> Db {
    let mut db = Db::new();
    db.open().unwrap();
    db
}

#[test]
fn test_opening_in_memory_db() {
    let mut db = Db::new();
    assert!(db.open().is_ok());
}

#[test]
fn test_adding_new_station() {
    let db = opened();
    let added = db.add_station(&station()).unwrap();
    assert_ne!(added.id, None);
}

#[test]
fn test_querying_all_stations() {
    let db = opened();
    db.add_station(&station()).unwrap();
    let stations = db.get_stations().unwrap();
    assert_eq!(stations.len(), 1);
}

#[test]
fn test_updating_station() {
    let db = opened();
    let mut added = db.add_station(&station()).unwrap();

    let stations = db.get_stations().unwrap();
    assert_eq!(stations.len(), 1);
    assert_eq!(stations.get(0).unwrap().name, "Hoppy Kangaroo");

    added.name = "Tired Kangaroo".to_owned();
    db.update_station(&added).unwrap();

    let stations = db.get_stations().unwrap();
    assert_eq!(stations.len(), 1);
    assert_eq!(stations.get(0).unwrap().name, "Tired Kangaroo");
}

#[test]
fn test_adding_module() {
    let db = opened();
    let station = db.add_station(&station()).unwrap();
    assert_ne!(station.id, None);

    let mut adding = module("module-0");
    adding.station_id = station.id;
    let module = db.add_module(&adding).unwrap();
    assert_ne!(module.id, None);

    let modules = db.get_modules(station.id.expect("No station id")).unwrap();
    assert_eq!(modules.len(), 1);
}

#[test]
fn test_updating_module() {
    let db = opened();
    let station = db.add_station(&station()).unwrap();
    assert_ne!(station.id, None);

    let mut adding = module("module-0");
    adding.hardware_id = "module-0".to_owned();
    adding.station_id = station.id;
    let mut added = db.add_module(&adding).unwrap();

    let modules = db.get_modules(station.id.expect("No station id")).unwrap();
    assert_eq!(modules.len(), 1);
    assert_eq!(modules.get(0).unwrap().key, "module-0");

    added.key = "renamed-module-0".to_owned();
    db.update_module(&added).unwrap();

    let modules = db.get_modules(station.id.expect("No station id")).unwrap();
    assert_eq!(modules.len(), 1);
    assert_eq!(modules.get(0).unwrap().key, "renamed-module-0");
    assert_eq!(modules.get(0).unwrap().id, added.id);
}

#[test]
fn test_adding_sensor() {
    let db = opened();
    let station = db.add_station(&station()).unwrap();
    assert_ne!(station.id, None);

    let mut adding = module("module-0");
    adding.station_id = station.id;
    let module = db.add_module(&adding).unwrap();
    assert_ne!(module.id, None);

    let mut adding = sensor("sensor-0");
    adding.module_id = module.id;
    let sensor = db.add_sensor(&adding).unwrap();
    assert_ne!(sensor.id, None);

    let sensors = db.get_sensors(module.id.expect("No module id")).unwrap();
    assert_eq!(sensors.len(), 1);
}

#[test]
fn test_updating_sensor() {
    let db = opened();
    let station = db.add_station(&station()).unwrap();
    assert_ne!(station.id, None);

    let mut adding = module("module-0");
    adding.station_id = station.id;
    let module = db.add_module(&adding).unwrap();
    assert_ne!(module.id, None);

    let mut adding = sensor("sensor-0");
    adding.module_id = module.id;
    let mut sensor = db.add_sensor(&adding).unwrap();
    assert_ne!(sensor.id, None);

    let sensors = db.get_sensors(module.id.expect("No module id")).unwrap();
    assert_eq!(sensors.len(), 1);
    assert_eq!(sensors.get(0).unwrap().key, "sensor-0");

    sensor.key = "renamed-sensor-0".to_owned();
    db.update_sensor(&sensor).unwrap();

    let sensors = db.get_sensors(module.id.expect("No module id")).unwrap();
    assert_eq!(sensors.len(), 1);
    assert_eq!(sensors.get(0).unwrap().key, "renamed-sensor-0");
    assert_eq!(sensors.get(0).unwrap().id, sensor.id);
}

#[test]
fn test_sync_new_station() {
    let db = opened();
    let station = db.synchornize(station_with(&["basic-0"])).unwrap();

    assert!(station.id.is_some());
    for module in station.modules {
        assert!(module.id.is_some());
        for sensor in module.sensors {
            assert!(sensor.id.is_some());
        }
    }
}

#[test]
fn test_sync_station_with_only_field_changes() {
    let db = opened();
    let first = db.synchornize(station_with(&["basic-0"])).unwrap();
    assert!(first.id.is_some());

    let mut incoming = station_with(&["basic-0"]);
    incoming.name = "Renamed".to_owned();
    let second = db.synchornize(incoming).unwrap();

    assert_eq!(first.id, second.id);
    assert_eq!(second.name, "Renamed");
}

#[test]
fn test_sync_station_with_module_removed() {
    let db = opened();
    let first = db.synchornize(station_with(&["basic-0"])).unwrap();
    assert!(first.id.is_some());

    let second = db.synchornize(station()).unwrap();

    assert_eq!(first.id, second.id);
    assert_eq!(second.modules.len(), 1);
    assert_eq!(second.modules.get(0).map(|m| m.removed), Some(true));
}

#[test]
fn test_sync_station_with_module_added() {
    let db = opened();
    let first = db.synchornize(station_with(&["basic-0"])).unwrap();
    assert!(first.id.is_some());

    let second = db.synchornize(station_with(&["basic-0", "basic-1"])).unwrap();

    assert_eq!(first.id, second.id);
    assert_eq!(second.modules.len(), 2);
}

#[test]
fn test_adding_new_station_download() {
    let db = opened();
    let station = db.add_station(&station()).unwrap();
    let added = db.add_station_download(&download(station.id)).unwrap();
    assert_ne!(added.id, None);
}

#[test]
fn test_querying_station_downloads() {
    let db = opened();
    let station = db.add_station(&station()).unwrap();
    db.add_station_download(&download(station.id)).unwrap();

    let downloads = db.get_station_downloads(station.id.unwrap()).unwrap();
    assert_eq!(downloads.len(), 1);
}

#[test]
fn test_updating_station_download() {
    let db = opened();
    let station = db.add_station(&station()).unwrap();
    let mut added = db.add_station_download(&download(station.id)).unwrap();

    let downloads = db.get_station_downloads(station.id.unwrap()).unwrap();
    assert_eq!(downloads.len(), 1);
    assert!(downloads.get(0).unwrap().finished.is_none());

    added.finished = Some(at(1_600_000_200, 987_654_321));
    db.update_station_download(&added).unwrap();

    let downloads = db.get_station_downloads(station.id.unwrap()).unwrap();
    assert_eq!(downloads.len(), 1);
    assert!(downloads.get(0).unwrap().finished.is_some());
}

//! The aggregate: a station, its modules and their sensors, and the
//! download ledger. Storage identities are `None` until the repository
//! assigns them.
//!
//! Measured quantities (battery, solar, readings) are kept as the bit
//! patterns of IEEE-754 single-precision numbers, so that they are stored
//! and compared exactly.
use crate::time::Timestamp;
use vstd::prelude::*;

verus! {

/// Stable identifier of a physical station.
#[derive(Clone, Debug)]
pub struct DeviceId(pub String);

#[derive(Clone, Debug)]
pub struct Firmware {
    pub label: String,
    pub time: i64,
}

/// Byte size and record count of one of a station's streams.
#[derive(Clone, Copy, Debug, PartialEq, Eq, Structural)]
pub struct Stream {
    pub size: i64,
    pub records: i64,
}

#[derive(Clone, Copy, Debug, PartialEq, Eq, Structural)]
pub struct Battery {
    pub percentage_bits: u32,
    pub voltage_bits: u32,
}

#[derive(Clone, Copy, Debug, PartialEq, Eq, Structural)]
pub struct Solar {
    pub voltage_bits: u32,
}

#[derive(Clone, Copy, Debug, PartialEq, Eq, Structural)]
pub struct ModuleHeader {
    pub manufacturer: u32,
    pub kind: u32,
    pub version: u32,
}

/// A sensor's latest reading.
#[derive(Clone, Copy, Debug, PartialEq, Eq, Structural)]
pub struct LiveValue {
    pub time: Timestamp,
    pub value_bits: u32,
    pub uncalibrated_bits: u32,
}

#[derive(Clone, Debug)]
pub struct Sensor {
    pub id: Option<i64>,
    pub module_id: Option<i64>,
    pub number: u32,
    pub flags: u32,
    pub key: String,
    pub calibrated_uom: String,
    pub uncalibrated_uom: String,
    pub value: Option<LiveValue>,
    pub removed: bool,
}

#[derive(Clone, Debug)]
pub struct Module {
    pub id: Option<i64>,
    pub station_id: Option<i64>,
    pub hardware_id: String,
    pub header: ModuleHeader,
    pub flags: u32,
    pub position: u32,
    pub key: String,
    pub path: String,
    pub configuration: Vec<u8>,
    pub removed: bool,
    pub sensors: Vec<Sensor>,
}

#[derive(Clone, Debug)]
pub struct Station {
    pub id: Option<i64>,
    pub device_id: DeviceId,
    pub generation_id: String,
    pub name: String,
    pub firmware: Firmware,
    pub last_seen: Timestamp,
    pub meta: Stream,
    pub data: Stream,
    pub battery: Battery,
    pub solar: Solar,
    pub status: u32,
    pub modules: Vec<Module>,
}

/// One pass of data retrieval from a station.
#[derive(Clone, Debug)]
pub struct StationDownload {
    pub id: Option<i64>,
    pub station_id: Option<i64>,
    pub generation_id: String,
    pub started: Timestamp,
    pub begin: i64,
    pub end: i64,
    pub path: String,
    pub uploaded: Option<i64>,
    pub finished: Option<Timestamp>,
    pub size: Option<i64>,
    pub error: Option<String>,
}

/// What a sensor is, with text as character sequences.
pub struct SensorModel {
    pub id: Option<i64>,
    pub module_id: Option<i64>,
    pub number: u32,
    pub flags: u32,
    pub key: Seq<char>,
    pub calibrated_uom: Seq<char>,
    pub uncalibrated_uom: Seq<char>,
    pub value: Option<LiveValue>,
    pub removed: bool,
}

/// What a module is, with its sensors' models.
pub struct ModuleModel {
    pub id: Option<i64>,
    pub station_id: Option<i64>,
    pub hardware_id: Seq<char>,
    pub header: ModuleHeader,
    pub flags: u32,
    pub position: u32,
    pub key: Seq<char>,
    pub path: Seq<char>,
    pub configuration: Seq<u8>,
    pub removed: bool,
    pub sensors: Seq<SensorModel>,
}

/// What an aggregate is: the station's fields and its modules' models.
pub struct StationModel {
    pub id: Option<i64>,
    pub device_id: Seq<char>,
    pub generation_id: Seq<char>,
    pub name: Seq<char>,
    pub firmware_label: Seq<char>,
    pub firmware_time: i64,
    pub last_seen: Timestamp,
    pub meta: Stream,
    pub data: Stream,
    pub battery: Battery,
    pub solar: Solar,
    pub status: u32,
    pub modules: Seq<ModuleModel>,
}

/// What a ledger entry is.
pub struct DownloadModel {
    pub id: Option<i64>,
    pub station_id: Option<i64>,
    pub generation_id: Seq<char>,
    pub started: Timestamp,
    pub begin: i64,
    pub end: i64,
    pub path: Seq<char>,
    pub uploaded: Option<i64>,
    pub finished: Option<Timestamp>,
    pub size: Option<i64>,
    pub error: Option<Seq<char>>,
}

impl View for Sensor {
    type V = SensorModel;

    open spec fn view(&self) -> SensorModel {
        SensorModel {
            id: self.id,
            module_id: self.module_id,
            number: self.number,
            flags: self.flags,
            key: self.key@,
            calibrated_uom: self.calibrated_uom@,
            uncalibrated_uom: self.uncalibrated_uom@,
            value: self.value,
            removed: self.removed,
        }
    }
}

impl View for Module {
    type V = ModuleModel;

    open spec fn view(&self) -> ModuleModel {
        ModuleModel {
            id: self.id,
            station_id: self.station_id,
            hardware_id: self.hardware_id@,
            header: self.header,
            flags: self.flags,
            position: self.position,
            key: self.key@,
            path: self.path@,
            configuration: self.configuration@,
            removed: self.removed,
            sensors: self.sensors@.map_values(|s: Sensor| s@),
        }
    }
}

impl View for Station {
    type V = StationModel;

    open spec fn view(&self) -> StationModel {
        StationModel {
            id: self.id,
            device_id: self.device_id.0@,
            generation_id: self.generation_id@,
            name: self.name@,
            firmware_label: self.firmware.label@,
            firmware_time: self.firmware.time,
            last_seen: self.last_seen,
            meta: self.meta,
            data: self.data,
            battery: self.battery,
            solar: self.solar,
            status: self.status,
            modules: self.modules@.map_values(|m: Module| m@),
        }
    }
}

/// The characters of optional text.
pub open spec fn opt_text(s: Option<String>) -> Option<Seq<char>> {
    match s {
        Some(t) => Some(t@),
        None => None,
    }
}

impl View for StationDownload {
    type V = DownloadModel;

    open spec fn view(&self) -> DownloadModel {
        DownloadModel {
            id: self.id,
            station_id: self.station_id,
            generation_id: self.generation_id@,
            started: self.started,
            begin: self.begin,
            end: self.end,
            path: self.path@,
            uploaded: self.uploaded,
            finished: self.finished,
            size: self.size,
            error: opt_text(self.error),
        }
    }
}

/// The models of a sequence of sensors.
pub open spec fn sensors_view(v: Seq<Sensor>) -> Seq<SensorModel> {
    v.map_values(|s: Sensor| s@)
}

/// The models of a sequence of modules.
pub open spec fn modules_view(v: Seq<Module>) -> Seq<ModuleModel> {
    v.map_values(|m: Module| m@)
}

/// A copy of a byte vector.
pub fn copy_bytes(v: &Vec<u8>) -> (r: Vec<u8>)
    ensures
        r@ == v@,
{
    let mut r: Vec<u8> = Vec::new();
    let mut i: usize = 0;
    while i < v.len()
        invariant
            i <= v.len(),
            r@ == v@.subrange(0, i as int),
        decreases v.len() - i,
    {
        r.push(v[i]);
        i += 1;
        proof {
            assert(r@ =~= v@.subrange(0, i as int));
        }
    }
    assert(r@ =~= v@);
    r
}

impl Sensor {
    /// A copy of the sensor with the same model.
    pub fn duplicate(&self) -> (r: Sensor)
        ensures
            r@ == self@,
    {
        Sensor {
            id: self.id,
            module_id: self.module_id,
            number: self.number,
            flags: self.flags,
            key: self.key.clone(),
            calibrated_uom: self.calibrated_uom.clone(),
            uncalibrated_uom: self.uncalibrated_uom.clone(),
            value: self.value,
            removed: self.removed,
        }
    }
}

/// A copy of a sensor list, sensor by sensor.
pub fn copy_sensors(v: &Vec<Sensor>) -> (r: Vec<Sensor>)
    ensures
        sensors_view(r@) == sensors_view(v@),
{
    let mut r: Vec<Sensor> = Vec::new();
    let mut i: usize = 0;
    while i < v.len()
        invariant
            i <= v.len(),
            r@.len() == i,
            forall|j: int| 0 <= j < i ==> r@[j]@ == v@[j]@,
        decreases v.len() - i,
    {
        let s = v[i].duplicate();
        r.push(s);
        i += 1;
    }
    assert(sensors_view(r@) =~= sensors_view(v@));
    r
}

impl Module {
    /// A copy of the module, with its sensors, with the same model.
    pub fn duplicate(&self) -> (r: Module)
        ensures
            r@ == self@,
    {
        let sensors = copy_sensors(&self.sensors);
        Module {
            id: self.id,
            station_id: self.station_id,
            hardware_id: self.hardware_id.clone(),
            header: self.header,
            flags: self.flags,
            position: self.position,
            key: self.key.clone(),
            path: self.path.clone(),
            configuration: copy_bytes(&self.configuration),
            removed: self.removed,
            sensors,
        }
    }
}


/// A copy of a module list, module by module.
pub fn copy_modules(v: &Vec<Module>) -> (r: Vec<Module>)
    ensures
        modules_view(r@) == modules_view(v@),
{
    let mut r: Vec<Module> = Vec::new();
    let mut i: usize = 0;
    while i < v.len()
        invariant
            i <= v.len(),
            r@.len() == i,
            forall|j: int| 0 <= j < i ==> r@[j]@ == v@[j]@,
        decreases v.len() - i,
    {
        let m = v[i].duplicate();
        r.push(m);
        i += 1;
    }
    assert(modules_view(r@) =~= modules_view(v@));
    r
}

impl Station {
    /// A copy of the aggregate with the same model.
    pub fn duplicate(&self) -> (r: Station)
        ensures
            r@ == self@,
    {
        Station {
            id: self.id,
            device_id: DeviceId(self.device_id.0.clone()),
            generation_id: self.generation_id.clone(),
            name: self.name.clone(),
            firmware: Firmware { label: self.firmware.label.clone(), time: self.firmware.time },
            last_seen: self.last_seen,
            meta: self.meta,
            data: self.data,
            battery: self.battery,
            solar: self.solar,
            status: self.status,
            modules: copy_modules(&self.modules),
        }
    }
}

impl StationDownload {
    /// A copy of the ledger entry with the same model.
    pub fn duplicate(&self) -> (r: StationDownload)
        ensures
            r@ == self@,
    {
        StationDownload {
            id: self.id,
            station_id: self.station_id,
            generation_id: self.generation_id.clone(),
            started: self.started,
            begin: self.begin,
            end: self.end,
            path: self.path.clone(),
            uploaded: self.uploaded,
            finished: self.finished,
            size: self.size,
            error: match &self.error {
                Some(e) => Some(e.clone()),
                None => None,
            },
        }
    }
}

} // verus!

//! The merge engine: reconciles the stored aggregate of a station with an
//! incoming report. Modules are matched by module key, sensors by sensor key
//! within their module. Matched entities keep their storage identity,
//! entities that the report no longer names are tombstoned, new ones are
//! taken as reported.
use crate::model::{copy_bytes, modules_view, sensors_view, Module, ModuleModel, Sensor, SensorModel, Station, StationModel};
use vstd::prelude::*;

verus! {

/// Index of the first sensor with the given key.
pub open spec fn find_sensor(ss: Seq<SensorModel>, key: Seq<char>) -> Option<int>
    decreases ss.len(),
{
    if ss.len() == 0 {
        None
    } else {
        match find_sensor(ss.drop_last(), key) {
            Some(i) => Some(i),
            None => if ss.last().key == key {
                Some(ss.len() - 1)
            } else {
                None
            },
        }
    }
}

/// Index of the first module with the given key.
pub open spec fn find_module(ms: Seq<ModuleModel>, key: Seq<char>) -> Option<int>
    decreases ms.len(),
{
    if ms.len() == 0 {
        None
    } else {
        match find_module(ms.drop_last(), key) {
            Some(i) => Some(i),
            None => if ms.last().key == key {
                Some(ms.len() - 1)
            } else {
                None
            },
        }
    }
}

/// A reported sensor that matched a stored one: the report's fields, the
/// stored identities, active.
pub open spec fn matched_sensor(e: SensorModel, inc: SensorModel) -> SensorModel {
    SensorModel { id: e.id, module_id: e.module_id, removed: false, ..inc }
}

pub open spec fn tombstoned_sensor(e: SensorModel) -> SensorModel {
    SensorModel { removed: true, ..e }
}

pub open spec fn reconcile_sensor(existing: Seq<SensorModel>, inc: SensorModel) -> SensorModel {
    match find_sensor(existing, inc.key) {
        Some(i) => matched_sensor(existing[i], inc),
        None => inc,
    }
}

/// The stored sensors that the report no longer names, tombstoned, in
/// their stored order.
pub open spec fn leftover_sensors(existing: Seq<SensorModel>, incoming: Seq<SensorModel>) -> Seq<
    SensorModel,
>
    decreases existing.len(),
{
    if existing.len() == 0 {
        seq![]
    } else {
        let rest = leftover_sensors(existing.drop_last(), incoming);
        if find_sensor(incoming, existing.last().key) is Some {
            rest
        } else {
            rest.push(tombstoned_sensor(existing.last()))
        }
    }
}

/// The reported sensors, reconciled in report order, then the tombstones.
pub open spec fn merge_sensors(existing: Seq<SensorModel>, incoming: Seq<SensorModel>) -> Seq<
    SensorModel,
> {
    incoming.map_values(|s: SensorModel| reconcile_sensor(existing, s)) + leftover_sensors(
        existing,
        incoming,
    )
}

/// A reported module that matched a stored one: the report's fields, the
/// stored identities, active, and its sensors merged.
pub open spec fn matched_module(e: ModuleModel, inc: ModuleModel) -> ModuleModel {
    ModuleModel {
        id: e.id,
        station_id: e.station_id,
        removed: false,
        sensors: merge_sensors(e.sensors, inc.sensors),
        ..inc
    }
}

/// A stored module that the report no longer names: kept, with its
/// sensors, and tombstoned.
pub open spec fn tombstoned_module(e: ModuleModel) -> ModuleModel {
    ModuleModel { removed: true, ..e }
}

pub open spec fn reconcile_module(existing: Seq<ModuleModel>, inc: ModuleModel) -> ModuleModel {
    match find_module(existing, inc.key) {
        Some(i) => matched_module(existing[i], inc),
        None => inc,
    }
}

pub open spec fn leftover_modules(existing: Seq<ModuleModel>, incoming: Seq<ModuleModel>) -> Seq<
    ModuleModel,
>
    decreases existing.len(),
{
    if existing.len() == 0 {
        seq![]
    } else {
        let rest = leftover_modules(existing.drop_last(), incoming);
        if find_module(incoming, existing.last().key) is Some {
            rest
        } else {
            rest.push(tombstoned_module(existing.last()))
        }
    }
}

pub open spec fn merge_modules(existing: Seq<ModuleModel>, incoming: Seq<ModuleModel>) -> Seq<
    ModuleModel,
> {
    incoming.map_values(|m: ModuleModel| reconcile_module(existing, m)) + leftover_modules(
        existing,
        incoming,
    )
}

/// The merged aggregate. Without a stored aggregate the report is taken
/// as it is; otherwise the report's station fields win, and the stored
/// station and device identities are kept.
pub open spec fn merge_station(existing: Option<StationModel>, incoming: StationModel) -> StationModel {
    match existing {
        None => incoming,
        Some(e) => StationModel {
            id: e.id,
            device_id: e.device_id,
            modules: merge_modules(e.modules, incoming.modules),
            ..incoming
        },
    }
}


/// `find_sensor` gives the first index that holds the key.
pub proof fn lemma_find_sensor(ss: Seq<SensorModel>, key: Seq<char>)
    ensures
        match find_sensor(ss, key) {
            Some(i) => 0 <= i < ss.len() && ss[i].key == key && forall|j: int|
                0 <= j < i ==> ss[j].key != key,
            None => forall|j: int| 0 <= j < ss.len() ==> ss[j].key != key,
        },
    decreases ss.len(),
{
    if ss.len() > 0 {
        let d = ss.drop_last();
        lemma_find_sensor(d, key);
        assert forall|j: int| 0 <= j < d.len() implies d[j] == ss[j] by {}
    }
}

/// `find_module` gives the first index that holds the key.
pub proof fn lemma_find_module(ms: Seq<ModuleModel>, key: Seq<char>)
    ensures
        match find_module(ms, key) {
            Some(i) => 0 <= i < ms.len() && ms[i].key == key && forall|j: int|
                0 <= j < i ==> ms[j].key != key,
            None => forall|j: int| 0 <= j < ms.len() ==> ms[j].key != key,
        },
    decreases ms.len(),
{
    if ms.len() > 0 {
        let d = ms.drop_last();
        lemma_find_module(d, key);
        assert forall|j: int| 0 <= j < d.len() implies d[j] == ms[j] by {}
    }
}

pub open spec fn station_view(s: Option<Station>) -> Option<StationModel> {
    match s {
        Some(s) => Some(s@),
        None => None,
    }
}

fn find_sensor_index(ss: &Vec<Sensor>, key: &String) -> (r: Option<usize>)
    ensures
        match r {
            Some(i) => find_sensor(sensors_view(ss@), key@) == Some(i as int),
            None => find_sensor(sensors_view(ss@), key@) is None,
        },
{
    let mut found: Option<usize> = None;
    let mut i: usize = 0;
    while i < ss.len()
        invariant
            i <= ss.len(),
            match found {
                Some(k) => find_sensor(sensors_view(ss@.subrange(0, i as int)), key@) == Some(
                    k as int,
                ),
                None => find_sensor(sensors_view(ss@.subrange(0, i as int)), key@) is None,
            },
        decreases ss.len() - i,
    {
        let ghost prev = sensors_view(ss@.subrange(0, i as int));
        let ghost next = sensors_view(ss@.subrange(0, i + 1));
        assert(next.drop_last() =~= prev);
        if found.is_none() && ss[i].key.eq(key) {
            found = Some(i);
        }
        i += 1;
    }
    assert(ss@.subrange(0, ss.len() as int) =~= ss@);
    found
}

fn find_module_index(ms: &Vec<Module>, key: &String) -> (r: Option<usize>)
    ensures
        match r {
            Some(i) => find_module(modules_view(ms@), key@) == Some(i as int),
            None => find_module(modules_view(ms@), key@) is None,
        },
{
    let mut found: Option<usize> = None;
    let mut i: usize = 0;
    while i < ms.len()
        invariant
            i <= ms.len(),
            match found {
                Some(k) => find_module(modules_view(ms@.subrange(0, i as int)), key@) == Some(
                    k as int,
                ),
                None => find_module(modules_view(ms@.subrange(0, i as int)), key@) is None,
            },
        decreases ms.len() - i,
    {
        let ghost prev = modules_view(ms@.subrange(0, i as int));
        let ghost next = modules_view(ms@.subrange(0, i + 1));
        assert(next.drop_last() =~= prev);
        if found.is_none() && ms[i].key.eq(key) {
            found = Some(i);
        }
        i += 1;
    }
    assert(ms@.subrange(0, ms.len() as int) =~= ms@);
    found
}


/// Reconciles the sensors of one module.
pub fn merge_sensor_lists(existing: &Vec<Sensor>, incoming: &Vec<Sensor>) -> (r: Vec<Sensor>)
    ensures
        sensors_view(r@) == merge_sensors(sensors_view(existing@), sensors_view(incoming@)),
{
    let ghost ev = sensors_view(existing@);
    let ghost iv = sensors_view(incoming@);
    let mut r: Vec<Sensor> = Vec::new();
    let mut j: usize = 0;
    while j < incoming.len()
        invariant
            j <= incoming.len(),
            ev == sensors_view(existing@),
            iv == sensors_view(incoming@),
            r@.len() == j,
            forall|k: int| 0 <= k < j ==> r@[k]@ == reconcile_sensor(ev, iv[k]),
        decreases incoming.len() - j,
    {
        let inc = &incoming[j];
        proof {
            lemma_find_sensor(ev, inc.key@);
        }
        let merged = match find_sensor_index(existing, &inc.key) {
            Some(i) => {
                let e = &existing[i];
                Sensor {
                    id: e.id,
                    module_id: e.module_id,
                    number: inc.number,
                    flags: inc.flags,
                    key: inc.key.clone(),
                    calibrated_uom: inc.calibrated_uom.clone(),
                    uncalibrated_uom: inc.uncalibrated_uom.clone(),
                    value: inc.value,
                    removed: false,
                }
            },
            None => inc.duplicate(),
        };
        r.push(merged);
        j += 1;
    }
    let mut rest: Vec<Sensor> = Vec::new();
    let mut i: usize = 0;
    while i < existing.len()
        invariant
            i <= existing.len(),
            ev == sensors_view(existing@),
            iv == sensors_view(incoming@),
            sensors_view(rest@) == leftover_sensors(ev.subrange(0, i as int), iv),
        decreases existing.len() - i,
    {
        let e = &existing[i];
        proof {
            assert(ev.subrange(0, i + 1).drop_last() =~= ev.subrange(0, i as int));
        }
        if find_sensor_index(incoming, &e.key).is_none() {
            let mut t = e.duplicate();
            t.removed = true;
            rest.push(t);
            proof {
                assert(sensors_view(rest@) =~= leftover_sensors(ev.subrange(0, i + 1), iv));
            }
        }
        i += 1;
    }
    proof {
        assert(ev.subrange(0, existing.len() as int) =~= ev);
        assert(sensors_view(r@) =~= iv.map_values(|s: SensorModel| reconcile_sensor(ev, s)));
    }
    let ghost first = r@;
    let ghost second = rest@;
    r.append(&mut rest);
    proof {
        assert(r@ == first + second);
        assert(sensors_view(r@) =~= sensors_view(first) + sensors_view(second));
    }
    r
}

/// Reconciles the modules of a station.
pub fn merge_module_lists(existing: &Vec<Module>, incoming: &Vec<Module>) -> (r: Vec<Module>)
    ensures
        modules_view(r@) == merge_modules(modules_view(existing@), modules_view(incoming@)),
{
    let ghost ev = modules_view(existing@);
    let ghost iv = modules_view(incoming@);
    let mut r: Vec<Module> = Vec::new();
    let mut j: usize = 0;
    while j < incoming.len()
        invariant
            j <= incoming.len(),
            ev == modules_view(existing@),
            iv == modules_view(incoming@),
            r@.len() == j,
            forall|k: int| 0 <= k < j ==> r@[k]@ == reconcile_module(ev, iv[k]),
        decreases incoming.len() - j,
    {
        let inc = &incoming[j];
        proof {
            lemma_find_module(ev, inc.key@);
        }
        let merged = match find_module_index(existing, &inc.key) {
            Some(i) => {
                let e = &existing[i];
                Module {
                    id: e.id,
                    station_id: e.station_id,
                    hardware_id: inc.hardware_id.clone(),
                    header: inc.header,
                    flags: inc.flags,
                    position: inc.position,
                    key: inc.key.clone(),
                    path: inc.path.clone(),
                    configuration: copy_bytes(&inc.configuration),
                    removed: false,
                    sensors: merge_sensor_lists(&e.sensors, &inc.sensors),
                }
            },
            None => inc.duplicate(),
        };
        r.push(merged);
        j += 1;
    }
    let mut rest: Vec<Module> = Vec::new();
    let mut i: usize = 0;
    while i < existing.len()
        invariant
            i <= existing.len(),
            ev == modules_view(existing@),
            iv == modules_view(incoming@),
            modules_view(rest@) == leftover_modules(ev.subrange(0, i as int), iv),
        decreases existing.len() - i,
    {
        let e = &existing[i];
        proof {
            assert(ev.subrange(0, i + 1).drop_last() =~= ev.subrange(0, i as int));
        }
        if find_module_index(incoming, &e.key).is_none() {
            let mut t = e.duplicate();
            t.removed = true;
            rest.push(t);
            proof {
                assert(modules_view(rest@) =~= leftover_modules(ev.subrange(0, i + 1), iv));
            }
        }
        i += 1;
    }
    proof {
        assert(ev.subrange(0, existing.len() as int) =~= ev);
        assert(modules_view(r@) =~= iv.map_values(|m: ModuleModel| reconcile_module(ev, m)));
    }
    let ghost first = r@;
    let ghost second = rest@;
    r.append(&mut rest);
    proof {
        assert(r@ == first + second);
        assert(modules_view(r@) =~= modules_view(first) + modules_view(second));
    }
    r
}

/// Reconciles a stored aggregate (if any) with an incoming report.
pub fn merge(existing: Option<Station>, incoming: Station) -> (r: Station)
    ensures
        r@ == merge_station(station_view(existing), incoming@),
{
    match existing {
        None => incoming,
        Some(e) => {
            let modules = merge_module_lists(&e.modules, &incoming.modules);
            Station { id: e.id, device_id: e.device_id, modules, ..incoming }
        },
    }
}

} // verus!

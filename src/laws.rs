//! Properties of synchronization, proved over the merge engine's model and
//! the repository's persistence relation.
use crate::db::{active_modules, persisted_module, persisted_sensor, persisted_station};
use crate::merge::{
    find_module, find_sensor, lemma_find_module, lemma_find_sensor, leftover_modules,
    leftover_sensors, merge_modules, merge_sensors, merge_station, reconcile_module,
    reconcile_sensor, tombstoned_module,
};
use crate::model::{ModuleModel, SensorModel, StationModel};
use vstd::prelude::*;

verus! {

/// A module key found at `i` with no earlier occurrence is what
/// `find_module` gives.
pub proof fn lemma_find_module_at(ms: Seq<ModuleModel>, key: Seq<char>, i: int)
    requires
        0 <= i < ms.len(),
        ms[i].key == key,
        forall|j: int| 0 <= j < i ==> ms[j].key != key,
    ensures
        find_module(ms, key) == Some(i),
{
    lemma_find_module(ms, key);
    if let Some(k) = find_module(ms, key) {
        if k < i {
            assert(ms[k].key != key);
        } else if k > i {
            assert(ms[i].key != key);
        }
    }
}

/// A sensor key found at `i` with no earlier occurrence is what
/// `find_sensor` gives.
pub proof fn lemma_find_sensor_at(ss: Seq<SensorModel>, key: Seq<char>, i: int)
    requires
        0 <= i < ss.len(),
        ss[i].key == key,
        forall|j: int| 0 <= j < i ==> ss[j].key != key,
    ensures
        find_sensor(ss, key) == Some(i),
{
    lemma_find_sensor(ss, key);
    if let Some(k) = find_sensor(ss, key) {
        if k < i {
            assert(ss[k].key != key);
        } else if k > i {
            assert(ss[i].key != key);
        }
    }
}

proof fn lemma_leftover_modules_contains(e: Seq<ModuleModel>, s: Seq<ModuleModel>, i: int)
    requires
        0 <= i < e.len(),
        find_module(s, e[i].key) is None,
    ensures
        leftover_modules(e, s).contains(tombstoned_module(e[i])),
    decreases e.len(),
{
    let rest = leftover_modules(e.drop_last(), s);
    if i == e.len() - 1 {
        assert(leftover_modules(e, s) == rest.push(tombstoned_module(e[i])));
        assert(leftover_modules(e, s)[rest.len() as int] == tombstoned_module(e[i]));
    } else {
        assert(e.drop_last()[i] == e[i]);
        lemma_leftover_modules_contains(e.drop_last(), s, i);
        let j = choose|j: int| 0 <= j < rest.len() && rest[j] == tombstoned_module(e[i]);
        if find_module(s, e.last().key) is None {
            assert(leftover_modules(e, s)[j] == rest[j]);
        }
    }
}

proof fn lemma_leftover_modules_empty(e: Seq<ModuleModel>, s: Seq<ModuleModel>)
    requires
        forall|i: int| 0 <= i < e.len() ==> find_module(s, #[trigger] e[i].key) is Some,
    ensures
        leftover_modules(e, s) == Seq::<ModuleModel>::empty(),
    decreases e.len(),
{
    if e.len() > 0 {
        let d = e.drop_last();
        assert forall|i: int| 0 <= i < d.len() implies find_module(s, #[trigger] d[i].key) is Some by {
            assert(d[i] == e[i]);
        }
        lemma_leftover_modules_empty(d, s);
        assert(find_module(s, e[e.len() - 1].key) is Some);
    }
}

proof fn lemma_leftover_modules_all(e: Seq<ModuleModel>)
    ensures
        leftover_modules(e, Seq::<ModuleModel>::empty()) == e.map_values(
            |m: ModuleModel| tombstoned_module(m),
        ),
    decreases e.len(),
{
    if e.len() > 0 {
        lemma_leftover_modules_all(e.drop_last());
        assert(e.drop_last().map_values(|m: ModuleModel| tombstoned_module(m)).push(
            tombstoned_module(e.last()),
        ) =~= e.map_values(|m: ModuleModel| tombstoned_module(m)));
    }
}

/// The first synchronization of a device: the merge keeps the report as
/// it is, and persisting it gives the station, every module and every
/// sensor an identity.
pub proof fn lemma_first_seen_creates(incoming: StationModel, saved: StationModel)
    requires
        persisted_station(merge_station(None, incoming), saved),
    ensures
        saved.id is Some,
        saved.modules.len() == incoming.modules.len(),
        forall|i: int| 0 <= i < saved.modules.len() ==> (#[trigger] saved.modules[i]).id is Some,
        forall|i: int, j: int|
            0 <= i < saved.modules.len() && 0 <= j < saved.modules[i].sensors.len() ==> (
            #[trigger] saved.modules[i].sensors[j]).id is Some,
{
    assert forall|i: int, j: int|
        0 <= i < saved.modules.len() && 0 <= j < saved.modules[i].sensors.len() implies (
        #[trigger] saved.modules[i].sensors[j]).id is Some by {
        assert(crate::db::persisted_module(incoming.modules[i], saved.modules[i], saved.id->0));
    }
}

/// A report that changes only fields: the station keeps its identity and
/// device, takes the report's fields, and every reported module whose key
/// was stored keeps that stored module's identity.
pub proof fn lemma_field_change_keeps_identity(existing: StationModel, incoming: StationModel)
    ensures
        ({
            let m = merge_station(Some(existing), incoming);
            &&& m.id == existing.id
            &&& m.device_id == existing.device_id
            &&& m.name == incoming.name
            &&& m.generation_id == incoming.generation_id
            &&& m.firmware_label == incoming.firmware_label
            &&& m.firmware_time == incoming.firmware_time
            &&& m.last_seen == incoming.last_seen
            &&& m.meta == incoming.meta
            &&& m.data == incoming.data
            &&& m.battery == incoming.battery
            &&& m.solar == incoming.solar
            &&& m.status == incoming.status
            &&& m.modules.len() >= incoming.modules.len()
            &&& forall|j: int|
                0 <= j < incoming.modules.len() ==> {
                    &&& (#[trigger] m.modules[j]).key == incoming.modules[j].key
                    &&& find_module(existing.modules, incoming.modules[j].key) matches Some(i)
                        ==> m.modules[j].id == existing.modules[i].id && !m.modules[j].removed
                }
        }),
{
    let m = merge_station(Some(existing), incoming);
    assert forall|j: int| 0 <= j < incoming.modules.len() implies {
        &&& (#[trigger] m.modules[j]).key == incoming.modules[j].key
        &&& find_module(existing.modules, incoming.modules[j].key) matches Some(i)
            ==> m.modules[j].id == existing.modules[i].id && !m.modules[j].removed
    } by {
        assert(m.modules[j] == reconcile_module(existing.modules, incoming.modules[j]));
        lemma_find_module(existing.modules, incoming.modules[j].key);
    }
}

/// A stored module that the report no longer names is kept in the merged
/// aggregate, with its identity and sensors, tombstoned.
pub proof fn lemma_missing_module_tombstoned(existing: StationModel, incoming: StationModel, i: int)
    requires
        0 <= i < existing.modules.len(),
        find_module(incoming.modules, existing.modules[i].key) is None,
    ensures
        merge_station(Some(existing), incoming).modules.contains(
            tombstoned_module(existing.modules[i]),
        ),
{
    let inc = incoming.modules.map_values(
        |m: ModuleModel| reconcile_module(existing.modules, m),
    );
    let left = leftover_modules(existing.modules, incoming.modules);
    lemma_leftover_modules_contains(existing.modules, incoming.modules, i);
    let k = choose|k: int| 0 <= k < left.len() && left[k] == tombstoned_module(existing.modules[i]);
    assert(merge_modules(existing.modules, incoming.modules)[inc.len() + k] == left[k]);
}

/// A report without modules tombstones every stored module and deletes
/// none: the merged aggregate has as many modules as were stored, each with
/// its identity, each removed.
pub proof fn lemma_empty_report_tombstones_all(existing: StationModel, incoming: StationModel)
    requires
        incoming.modules.len() == 0,
    ensures
        ({
            let m = merge_station(Some(existing), incoming);
            &&& m.modules.len() == existing.modules.len()
            &&& forall|i: int|
                0 <= i < m.modules.len() ==> #[trigger] m.modules[i] == tombstoned_module(
                    existing.modules[i],
                )
        }),
{
    assert(incoming.modules =~= Seq::<ModuleModel>::empty());
    lemma_leftover_modules_all(existing.modules);
    let m = merge_station(Some(existing), incoming);
    assert(incoming.modules.map_values(|x: ModuleModel| reconcile_module(existing.modules, x))
        =~= Seq::<ModuleModel>::empty());
    assert(m.modules =~= existing.modules.map_values(|x: ModuleModel| tombstoned_module(x)));
}

/// A report that names every stored module and adds others: nothing is
/// tombstoned, the merged modules are the reported ones, the stored ones
/// keep their identities and the added ones are taken as reported.
pub proof fn lemma_added_modules_are_additive(existing: StationModel, incoming: StationModel)
    requires
        forall|i: int|
            0 <= i < existing.modules.len() ==> find_module(
                incoming.modules,
                #[trigger] existing.modules[i].key,
            ) is Some,
    ensures
        ({
            let m = merge_station(Some(existing), incoming);
            &&& m.modules.len() == incoming.modules.len()
            &&& forall|j: int|
                0 <= j < incoming.modules.len() ==> match find_module(
                    existing.modules,
                    incoming.modules[j].key,
                ) {
                    Some(i) => (#[trigger] m.modules[j]).id == existing.modules[i].id,
                    None => m.modules[j] == incoming.modules[j],
                }
        }),
{
    lemma_leftover_modules_empty(existing.modules, incoming.modules);
    let m = merge_station(Some(existing), incoming);
    assert forall|j: int| 0 <= j < incoming.modules.len() implies match find_module(
        existing.modules,
        incoming.modules[j].key,
    ) {
        Some(i) => (#[trigger] m.modules[j]).id == existing.modules[i].id,
        None => m.modules[j] == incoming.modules[j],
    } by {
        assert(m.modules[j] == reconcile_module(existing.modules, incoming.modules[j]));
    }
}

/// Sensor keys are distinct and no sensor is tombstoned.
pub open spec fn sensors_reported(ss: Seq<SensorModel>) -> bool {
    &&& forall|k: int| 0 <= k < ss.len() ==> !(#[trigger] ss[k]).removed
    &&& forall|k: int, l: int| 0 <= k < l < ss.len() ==> (#[trigger] ss[k]).key != (#[trigger] ss[l]).key
}

/// A report as a device sends it: module keys are distinct, sensor keys
/// are distinct within each module, and nothing is tombstoned.
pub open spec fn is_snapshot(s: StationModel) -> bool {
    &&& forall|j: int| 0 <= j < s.modules.len() ==> !(#[trigger] s.modules[j]).removed
    &&& forall|j: int, l: int|
        0 <= j < l < s.modules.len() ==> (#[trigger] s.modules[j]).key != (#[trigger] s.modules[l]).key
    &&& forall|j: int| 0 <= j < s.modules.len() ==> sensors_reported(#[trigger] s.modules[j].sensors)
}

/// The aggregate as hydration reads it back: tombstoned modules left out.
pub open spec fn active_view(s: StationModel) -> StationModel {
    StationModel { modules: active_modules(s.modules), ..s }
}

/// `ms` is what a merge makes of the reported sensors `ss`: first each
/// reported sensor, active, with at most its identities changed; then
/// tombstones whose keys the report does not name.
pub open spec fn sensors_follow_report(ms: Seq<SensorModel>, ss: Seq<SensorModel>) -> bool {
    &&& ms.len() >= ss.len()
    &&& forall|k: int|
        0 <= k < ss.len() ==> #[trigger] ms[k] == (SensorModel {
            id: ms[k].id,
            module_id: ms[k].module_id,
            removed: false,
            ..ss[k]
        })
    &&& forall|k: int|
        ss.len() <= k < ms.len() ==> (#[trigger] ms[k]).removed && find_sensor(ss, ms[k].key) is None
}

/// `mm` is what a merge makes of the reported modules `rm`: first each
/// reported module, active, with its identities and sensors changed as a
/// merge changes them; then tombstones.
pub open spec fn modules_follow_report(mm: Seq<ModuleModel>, rm: Seq<ModuleModel>) -> bool {
    &&& mm.len() >= rm.len()
    &&& forall|j: int|
        0 <= j < rm.len() ==> #[trigger] mm[j] == (ModuleModel {
            id: mm[j].id,
            station_id: mm[j].station_id,
            removed: false,
            sensors: mm[j].sensors,
            ..rm[j]
        }) && sensors_follow_report(mm[j].sensors, rm[j].sensors)
    &&& forall|j: int| rm.len() <= j < mm.len() ==> (#[trigger] mm[j]).removed
}

proof fn lemma_leftover_sensors_props(x: Seq<SensorModel>, ss: Seq<SensorModel>)
    ensures
        forall|k: int|
            0 <= k < leftover_sensors(x, ss).len() ==> (#[trigger] leftover_sensors(x, ss)[k]).removed
                && find_sensor(ss, leftover_sensors(x, ss)[k].key) is None,
    decreases x.len(),
{
    if x.len() > 0 {
        lemma_leftover_sensors_props(x.drop_last(), ss);
    }
}

proof fn lemma_leftover_modules_removed(x: Seq<ModuleModel>, rm: Seq<ModuleModel>)
    ensures
        forall|k: int|
            0 <= k < leftover_modules(x, rm).len() ==> (#[trigger] leftover_modules(x, rm)[k]).removed,
    decreases x.len(),
{
    if x.len() > 0 {
        lemma_leftover_modules_removed(x.drop_last(), rm);
    }
}

proof fn lemma_merged_sensors_follow(x: Seq<SensorModel>, ss: Seq<SensorModel>)
    requires
        sensors_reported(ss),
    ensures
        sensors_follow_report(merge_sensors(x, ss), ss),
{
    let ms = merge_sensors(x, ss);
    let n = ss.len();
    lemma_leftover_sensors_props(x, ss);
    assert forall|k: int| 0 <= k < n implies #[trigger] ms[k] == (SensorModel {
        id: ms[k].id,
        module_id: ms[k].module_id,
        removed: false,
        ..ss[k]
    }) by {
        assert(ms[k] == reconcile_sensor(x, ss[k]));
        lemma_find_sensor(x, ss[k].key);
    }
    assert forall|k: int| n <= k < ms.len() implies (#[trigger] ms[k]).removed && find_sensor(
        ss,
        ms[k].key,
    ) is None by {
        assert(ms[k] == leftover_sensors(x, ss)[k - n]);
    }
}

proof fn lemma_reported_sensors_follow(ss: Seq<SensorModel>)
    requires
        sensors_reported(ss),
    ensures
        sensors_follow_report(ss, ss),
{
    assert forall|k: int| 0 <= k < ss.len() implies #[trigger] ss[k] == (SensorModel {
        id: ss[k].id,
        module_id: ss[k].module_id,
        removed: false,
        ..ss[k]
    }) by {
        assert(!ss[k].removed);
    }
}

proof fn lemma_merged_modules_follow(existing: Option<StationModel>, s: StationModel)
    requires
        is_snapshot(s),
    ensures
        modules_follow_report(merge_station(existing, s).modules, s.modules),
{
    let rm = s.modules;
    let mm = merge_station(existing, s).modules;
    match existing {
        None => {
            assert forall|j: int| 0 <= j < rm.len() implies #[trigger] mm[j] == (ModuleModel {
                id: mm[j].id,
                station_id: mm[j].station_id,
                removed: false,
                sensors: mm[j].sensors,
                ..rm[j]
            }) && sensors_follow_report(mm[j].sensors, rm[j].sensors) by {
                assert(!rm[j].removed);
                assert(sensors_reported(rm[j].sensors));
                lemma_reported_sensors_follow(rm[j].sensors);
            }
        },
        Some(e) => {
            lemma_leftover_modules_removed(e.modules, rm);
            assert forall|j: int| 0 <= j < rm.len() implies #[trigger] mm[j] == (ModuleModel {
                id: mm[j].id,
                station_id: mm[j].station_id,
                removed: false,
                sensors: mm[j].sensors,
                ..rm[j]
            }) && sensors_follow_report(mm[j].sensors, rm[j].sensors) by {
                assert(mm[j] == reconcile_module(e.modules, rm[j]));
                assert(!rm[j].removed);
                assert(sensors_reported(rm[j].sensors));
                lemma_find_module(e.modules, rm[j].key);
                match find_module(e.modules, rm[j].key) {
                    Some(i) => lemma_merged_sensors_follow(e.modules[i].sensors, rm[j].sensors),
                    None => lemma_reported_sensors_follow(rm[j].sensors),
                }
            }
            assert forall|j: int| rm.len() <= j < mm.len() implies (#[trigger] mm[j]).removed by {
                assert(mm[j] == leftover_modules(e.modules, rm)[j - rm.len()]);
            }
        },
    }
}

proof fn lemma_leftover_sensors_suffix(x: Seq<SensorModel>, ss: Seq<SensorModel>, n: int, k: int)
    requires
        0 <= n <= x.len(),
        0 <= k <= x.len(),
        forall|i: int| 0 <= i < n ==> find_sensor(ss, #[trigger] x[i].key) is Some,
        forall|i: int|
            n <= i < x.len() ==> find_sensor(ss, #[trigger] x[i].key) is None && x[i].removed,
    ensures
        leftover_sensors(x.subrange(0, k), ss) == (if k <= n {
            Seq::<SensorModel>::empty()
        } else {
            x.subrange(n, k)
        }),
    decreases k,
{
    if k > 0 {
        lemma_leftover_sensors_suffix(x, ss, n, k - 1);
        let xs = x.subrange(0, k);
        assert(xs.drop_last() =~= x.subrange(0, k - 1));
        assert(xs.last() == x[k - 1]);
        if k > n {
            assert(x.subrange(n, k - 1).push(x[k - 1]) =~= x.subrange(n, k));
            assert(crate::merge::tombstoned_sensor(x[k - 1]) == x[k - 1]);
        }
    }
}

proof fn lemma_active_prefix(x: Seq<ModuleModel>, n: int, k: int)
    requires
        0 <= n <= x.len(),
        0 <= k <= x.len(),
        forall|i: int| 0 <= i < n ==> !(#[trigger] x[i]).removed,
        forall|i: int| n <= i < x.len() ==> (#[trigger] x[i]).removed,
    ensures
        active_modules(x.subrange(0, k)) == x.subrange(0, if k <= n { k } else { n }),
    decreases k,
{
    if k > 0 {
        lemma_active_prefix(x, n, k - 1);
        let xs = x.subrange(0, k);
        assert(xs.drop_last() =~= x.subrange(0, k - 1));
        assert(xs.last() == x[k - 1]);
        if k <= n {
            assert(x.subrange(0, k - 1).push(x[k - 1]) =~= x.subrange(0, k));
        }
    }
}

/// Persisted sensors that follow a report merge with that report into
/// themselves.
proof fn lemma_sensors_fixed(ms: Seq<SensorModel>, ps: Seq<SensorModel>, ss: Seq<SensorModel>, module_id: i64)
    requires
        sensors_reported(ss),
        sensors_follow_report(ms, ss),
        ps.len() == ms.len(),
        forall|k: int| 0 <= k < ms.len() ==> persisted_sensor(ms[k], #[trigger] ps[k], module_id),
    ensures
        merge_sensors(ps, ss) == ps,
{
    let n = ss.len() as int;
    assert forall|i: int| 0 <= i < n implies find_sensor(ss, #[trigger] ps[i].key) is Some by {
        assert(persisted_sensor(ms[i], ps[i], module_id));
        assert(ms[i].key == ss[i].key);
        lemma_find_sensor(ss, ps[i].key);
    }
    assert forall|i: int| n <= i < ps.len() implies find_sensor(ss, #[trigger] ps[i].key) is None
        && ps[i].removed by {
        assert(persisted_sensor(ms[i], ps[i], module_id));
        assert(ms[i].removed);
    }
    lemma_leftover_sensors_suffix(ps, ss, n, ps.len() as int);
    assert(ps.subrange(0, ps.len() as int) =~= ps);
    let first = ss.map_values(|x: SensorModel| reconcile_sensor(ps, x));
    assert forall|k: int| 0 <= k < n implies #[trigger] first[k] == ps[k] by {
        assert(persisted_sensor(ms[k], ps[k], module_id));
        assert(ms[k] == (SensorModel { id: ms[k].id, module_id: ms[k].module_id, removed: false, ..ss[k] }));
        assert forall|j: int| 0 <= j < k implies ps[j].key != ss[k].key by {
            assert(persisted_sensor(ms[j], ps[j], module_id));
            assert(ms[j] == (SensorModel { id: ms[j].id, module_id: ms[j].module_id, removed: false, ..ss[j] }));
            assert(ss[j].key != ss[k].key);
        }
        lemma_find_sensor_at(ps, ss[k].key, k);
    }
    assert(merge_sensors(ps, ss) =~= ps);
}

/// Synchronizing the same report twice: once the first result is stored
/// and read back by hydration (tombstoned modules left out), the second
/// merge gives back exactly what was read: the same identities, the same
/// tombstones, the same counts, and nothing new to insert.
pub proof fn lemma_resync_is_idempotent(
    existing: Option<StationModel>,
    incoming: StationModel,
    saved: StationModel,
)
    requires
        is_snapshot(incoming),
        persisted_station(merge_station(existing, incoming), saved),
    ensures
        merge_station(Some(active_view(saved)), incoming) == active_view(saved),
{
    let mm = merge_station(existing, incoming).modules;
    let rm = incoming.modules;
    let n = rm.len() as int;
    let pm = saved.modules;
    let sid = saved.id->0;
    lemma_merged_modules_follow(existing, incoming);
    assert forall|i: int| 0 <= i < n implies !(#[trigger] pm[i]).removed by {
        assert(persisted_module(mm[i], pm[i], sid));
    }
    assert forall|i: int| n <= i < pm.len() implies (#[trigger] pm[i]).removed by {
        assert(persisted_module(mm[i], pm[i], sid));
    }
    lemma_active_prefix(pm, n, pm.len() as int);
    assert(pm.subrange(0, pm.len() as int) =~= pm);
    let am = active_modules(pm);
    assert(am == pm.subrange(0, n));
    assert forall|i: int| 0 <= i < am.len() implies find_module(rm, #[trigger] am[i].key) is Some by {
        assert(am[i] == pm[i]);
        assert(persisted_module(mm[i], pm[i], sid));
        lemma_find_module(rm, am[i].key);
    }
    lemma_leftover_modules_empty(am, rm);
    let first = rm.map_values(|x: ModuleModel| reconcile_module(am, x));
    assert forall|j: int| 0 <= j < n implies #[trigger] first[j] == am[j] by {
        assert(am[j] == pm[j]);
        assert(persisted_module(mm[j], pm[j], sid));
        assert forall|l: int| 0 <= l < j implies am[l].key != rm[j].key by {
            assert(am[l] == pm[l]);
            assert(persisted_module(mm[l], pm[l], sid));
            assert(rm[l].key != rm[j].key);
        }
        lemma_find_module_at(am, rm[j].key, j);
        assert(sensors_reported(rm[j].sensors));
        lemma_sensors_fixed(mm[j].sensors, pm[j].sensors, rm[j].sensors, pm[j].id->0);
    }
    assert(merge_modules(am, rm) =~= am);
}

/// Persisting the second merge of the same report changes nothing: the
/// stored aggregate that comes back equals the one that was read.
pub proof fn lemma_resync_keeps_identities(
    existing: Option<StationModel>,
    incoming: StationModel,
    saved: StationModel,
    again: StationModel,
)
    requires
        is_snapshot(incoming),
        persisted_station(merge_station(existing, incoming), saved),
        persisted_station(merge_station(Some(active_view(saved)), incoming), again),
    ensures
        again == active_view(saved),
{
    lemma_resync_is_idempotent(existing, incoming, saved);
    let a = active_view(saved);
    let mm = merge_station(existing, incoming).modules;
    let pm = saved.modules;
    let n = incoming.modules.len() as int;
    lemma_merged_modules_follow(existing, incoming);
    assert forall|i: int| 0 <= i < n implies !(#[trigger] pm[i]).removed by {
        assert(persisted_module(mm[i], pm[i], saved.id->0));
    }
    assert forall|i: int| n <= i < pm.len() implies (#[trigger] pm[i]).removed by {
        assert(persisted_module(mm[i], pm[i], saved.id->0));
    }
    lemma_active_prefix(pm, n, pm.len() as int);
    assert(pm.subrange(0, pm.len() as int) =~= pm);
    assert forall|j: int| 0 <= j < a.modules.len() implies #[trigger] again.modules[j] == a.modules[j] by {
        assert(a.modules[j] == pm[j]);
        assert(persisted_module(mm[j], pm[j], saved.id->0));
        assert(persisted_module(a.modules[j], again.modules[j], again.id->0));
        let ps = pm[j].sensors;
        let qs = again.modules[j].sensors;
        assert forall|k: int| 0 <= k < ps.len() implies #[trigger] qs[k] == ps[k] by {
            assert(persisted_sensor(mm[j].sensors[k], ps[k], pm[j].id->0));
            assert(persisted_sensor(ps[k], qs[k], again.modules[j].id->0));
        }
        assert(qs =~= ps);
    }
    assert(again.modules =~= a.modules);
}

/// A merge with a report as a device sends it keeps the keys of the active
/// modules distinct: the active modules are exactly the reported ones.
pub proof fn lemma_merge_keeps_active_keys_distinct(
    existing: Option<StationModel>,
    incoming: StationModel,
)
    requires
        is_snapshot(incoming),
    ensures
        ({
            let mm = merge_station(existing, incoming).modules;
            forall|i: int, j: int|
                0 <= i < j < mm.len() && !(#[trigger] mm[i]).removed && !(#[trigger] mm[j]).removed
                    ==> mm[i].key != mm[j].key
        }),
{
    let mm = merge_station(existing, incoming).modules;
    let rm = incoming.modules;
    lemma_merged_modules_follow(existing, incoming);
    assert forall|i: int, j: int|
        0 <= i < j < mm.len() && !(#[trigger] mm[i]).removed && !(#[trigger] mm[j]).removed
            implies mm[i].key != mm[j].key by {
        assert(i < rm.len() && j < rm.len());
        assert(mm[i].key == rm[i].key && mm[j].key == rm[j].key);
        assert(rm[i].key != rm[j].key);
    }
}

/// Once the merge of such a report is stored, the active modules that
/// hydration reads back have distinct keys.
pub proof fn lemma_stored_active_keys_distinct(
    existing: Option<StationModel>,
    incoming: StationModel,
    saved: StationModel,
)
    requires
        is_snapshot(incoming),
        persisted_station(merge_station(existing, incoming), saved),
    ensures
        ({
            let am = active_modules(saved.modules);
            forall|i: int, j: int| 0 <= i < j < am.len() ==> (#[trigger] am[i]).key != (#[trigger] am[j]).key
        }),
{
    let mm = merge_station(existing, incoming).modules;
    let rm = incoming.modules;
    let n = rm.len() as int;
    let pm = saved.modules;
    let sid = saved.id->0;
    lemma_merged_modules_follow(existing, incoming);
    assert forall|i: int| 0 <= i < n implies !(#[trigger] pm[i]).removed by {
        assert(persisted_module(mm[i], pm[i], sid));
    }
    assert forall|i: int| n <= i < pm.len() implies (#[trigger] pm[i]).removed by {
        assert(persisted_module(mm[i], pm[i], sid));
    }
    lemma_active_prefix(pm, n, pm.len() as int);
    assert(pm.subrange(0, pm.len() as int) =~= pm);
    let am = active_modules(pm);
    assert forall|i: int, j: int| 0 <= i < j < am.len() implies (#[trigger] am[i]).key != (
    #[trigger] am[j]).key by {
        assert(am[i] == pm[i] && am[j] == pm[j]);
        assert(persisted_module(mm[i], pm[i], sid));
        assert(persisted_module(mm[j], pm[j], sid));
        assert(rm[i].key != rm[j].key);
    }
}

} // verus!

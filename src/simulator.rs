use vstd::prelude::*;

verus! {

/// One runtime definition as the emulator registry lists it.
pub struct RuntimeEntry {
    pub name: String,
    pub identifier: String,
    pub path: String,
    pub is_available: bool,
    pub version: Option<String>,
}

/// One device definition as the emulator registry lists it.
pub struct DeviceEntry {
    pub name: String,
    pub identifier: String,
    pub path: String,
    pub is_available: bool,
    pub size: u64,
}

/// The devices that the registry lists under one runtime identifier.
pub struct DeviceGroup {
    pub runtime_identifier: String,
    pub devices: Vec<DeviceEntry>,
}

/// A runtime definition together with the size measured over its bundle path.
pub struct MeasuredRuntime {
    pub entry: RuntimeEntry,
    pub size: u64,
}

#[derive(Clone, Copy, Debug, PartialEq, Eq, Structural)]
pub enum SimulatorKind {
    Runtime,
    Device,
}

/// One emulator item of the inventory: a runtime image or a device bound
/// to one.
#[derive(Debug)]
pub struct SimulatorInfo {
    pub name: String,
    pub identifier: String,
    pub path: String,
    pub version: Option<String>,
    pub size: u64,
    pub is_available: bool,
    pub simulator_type: SimulatorKind,
}

/// The fields of a `SimulatorInfo` as mathematical values.
pub struct SimulatorRecord {
    pub name: Seq<char>,
    pub identifier: Seq<char>,
    pub path: Seq<char>,
    pub version: Option<Seq<char>>,
    pub size: u64,
    pub is_available: bool,
    pub kind: SimulatorKind,
}

pub open spec fn text_option(o: Option<String>) -> Option<Seq<char>> {
    match o {
        Some(s) => Some(s@),
        None => None,
    }
}

impl View for SimulatorInfo {
    type V = SimulatorRecord;

    open spec fn view(&self) -> SimulatorRecord {
        SimulatorRecord {
            name: self.name@,
            identifier: self.identifier@,
            path: self.path@,
            version: text_option(self.version),
            size: self.size,
            is_available: self.is_available,
            kind: self.simulator_type,
        }
    }
}

/// The inventory item for a measured runtime.
pub open spec fn runtime_record(m: MeasuredRuntime) -> SimulatorRecord {
    SimulatorRecord {
        name: m.entry.name@,
        identifier: m.entry.identifier@,
        path: m.entry.path@,
        version: text_option(m.entry.version),
        size: m.size,
        is_available: m.entry.is_available,
        kind: SimulatorKind::Runtime,
    }
}

/// The inventory item for a device: its size is the one the registry
/// reports, and it has no version.
pub open spec fn device_record(d: DeviceEntry) -> SimulatorRecord {
    SimulatorRecord {
        name: d.name@,
        identifier: d.identifier@,
        path: d.path@,
        version: None,
        size: d.size,
        is_available: d.is_available,
        kind: SimulatorKind::Device,
    }
}

/// The devices of the first group listed under runtime identifier `id`,
/// none when no group is.
pub open spec fn devices_of(groups: Seq<DeviceGroup>, id: Seq<char>) -> Seq<DeviceEntry>
    decreases groups.len(),
{
    if groups.len() == 0 {
        Seq::empty()
    } else if groups[0].runtime_identifier@ == id {
        groups[0].devices@
    } else {
        devices_of(groups.subrange(1, groups.len() as int), id)
    }
}

/// No two groups are listed under the same runtime identifier, as in the
/// registry's own listing, which is keyed by runtime identifier.
pub open spec fn distinct_runtime_ids(groups: Seq<DeviceGroup>) -> bool {
    forall|i: int, j: int|
        0 <= i < groups.len() && 0 <= j < groups.len() && i != j ==> #[trigger] groups[i].runtime_identifier@
            != #[trigger] groups[j].runtime_identifier@
}

/// Where runtime identifiers are distinct, the devices of a runtime are
/// those of the one group listed under its identifier.
pub proof fn lemma_devices_of_unique(groups: Seq<DeviceGroup>, k: int)
    requires
        distinct_runtime_ids(groups),
        0 <= k < groups.len(),
    ensures
        devices_of(groups, groups[k].runtime_identifier@) == groups[k].devices@,
    decreases groups.len(),
{
    if k > 0 {
        let rest = groups.subrange(1, groups.len() as int);
        assert(rest[k - 1] == groups[k]);
        assert(groups[0].runtime_identifier@ != groups[k].runtime_identifier@);
        assert forall|i: int, j: int|
            0 <= i < rest.len() && 0 <= j < rest.len() && i != j implies #[trigger] rest[i].runtime_identifier@
                != #[trigger] rest[j].runtime_identifier@ by {
            assert(rest[i] == groups[i + 1]);
            assert(rest[j] == groups[j + 1]);
        }
        lemma_devices_of_unique(rest, k - 1);
    }
}

/// The emulator inventory: each runtime, immediately followed by the devices
/// listed under its identifier, in the registry's order.
pub open spec fn simulator_inventory(runtimes: Seq<MeasuredRuntime>, groups: Seq<DeviceGroup>) -> Seq<
    SimulatorRecord,
>
    decreases runtimes.len(),
{
    if runtimes.len() == 0 {
        Seq::empty()
    } else {
        let last = runtimes.last();
        simulator_inventory(runtimes.drop_last(), groups) + seq![runtime_record(last)]
            + devices_of(groups, last.entry.identifier@).map_values(|d: DeviceEntry| device_record(d))
    }
}

/// What the registry's delete command is given for an item: the name of a
/// runtime, the identifier of a device.
pub open spec fn delete_target_of(r: SimulatorRecord) -> Seq<char> {
    match r.kind {
        SimulatorKind::Runtime => r.name,
        SimulatorKind::Device => r.identifier,
    }
}

fn clone_text_option(o: &Option<String>) -> (r: Option<String>)
    ensures
        text_option(r) == text_option(*o),
{
    match o {
        Some(s) => Some(s.clone()),
        None => None,
    }
}

/// Index of the first group listed under `id`, or the number of groups.
fn find_group(groups: &Vec<DeviceGroup>, id: &String) -> (r: usize)
    ensures
        r <= groups@.len(),
        r < groups@.len() ==> devices_of(groups@, id@) == groups@[r as int].devices@,
        r == groups@.len() ==> devices_of(groups@, id@) == Seq::<DeviceEntry>::empty(),
{
    let mut i: usize = 0;
    assert(groups@.subrange(0, groups@.len() as int) =~= groups@);
    while i < groups.len()
        invariant
            i <= groups@.len(),
            devices_of(groups@, id@) == devices_of(
                groups@.subrange(i as int, groups@.len() as int),
                id@,
            ),
        decreases groups@.len() - i,
    {
        let ghost rest = groups@.subrange(i as int, groups@.len() as int);
        assert(rest[0] == groups@[i as int]);
        if groups[i].runtime_identifier == *id {
            return i;
        }
        assert(rest.subrange(1, rest.len() as int) =~= groups@.subrange(
            i + 1,
            groups@.len() as int,
        ));
        i = i + 1;
    }
    i
}

impl SimulatorInfo {
    /// What the registry's delete command is given for this item.
    pub fn delete_target(&self) -> (r: &String)
        ensures
            r@ == delete_target_of(self@),
    {
        match self.simulator_type {
            SimulatorKind::Runtime => &self.name,
            SimulatorKind::Device => &self.identifier,
        }
    }
}

/// The emulator backend.
pub struct Simulator;

impl Simulator {
    /// Builds the emulator inventory from the registry's runtime listing, the
    /// sizes measured over the runtimes' bundle paths and the registry's
    /// device listing grouped by runtime identifier.
    pub fn get_simulators(runtimes: &Vec<MeasuredRuntime>, devices: &Vec<DeviceGroup>) -> (r: Vec<
        SimulatorInfo,
    >)
        ensures
            r@.map_values(|s: SimulatorInfo| s@) == simulator_inventory(runtimes@, devices@),
            distinct_runtime_ids(devices@) ==> forall|k: int|
                0 <= k < devices@.len() ==> #[trigger] devices_of(
                    devices@,
                    devices@[k].runtime_identifier@,
                ) == devices@[k].devices@,
    {
        proof {
            if distinct_runtime_ids(devices@) {
                assert forall|k: int| 0 <= k < devices@.len() implies #[trigger] devices_of(
                    devices@,
                    devices@[k].runtime_identifier@,
                ) == devices@[k].devices@ by {
                    lemma_devices_of_unique(devices@, k);
                }
            }
        }
        let mut out: Vec<SimulatorInfo> = Vec::new();
        let mut i: usize = 0;
        while i < runtimes.len()
            invariant
                i <= runtimes@.len(),
                out@.map_values(|s: SimulatorInfo| s@) == simulator_inventory(
                    runtimes@.take(i as int),
                    devices@,
                ),
            decreases runtimes@.len() - i,
        {
            let m = &runtimes[i];
            let ghost before = out@.map_values(|s: SimulatorInfo| s@);
            out.push(
                SimulatorInfo {
                    name: m.entry.name.clone(),
                    identifier: m.entry.identifier.clone(),
                    path: m.entry.path.clone(),
                    version: clone_text_option(&m.entry.version),
                    size: m.size,
                    is_available: m.entry.is_available,
                    simulator_type: SimulatorKind::Runtime,
                },
            );
            let ghost head = before + seq![runtime_record(*m)];
            assert(out@.map_values(|s: SimulatorInfo| s@) =~= head);
            let g = find_group(devices, &m.entry.identifier);
            let ghost devs = devices_of(devices@, m.entry.identifier@);
            if g < devices.len() {
                let list = &devices[g].devices;
                let mut j: usize = 0;
                while j < list.len()
                    invariant
                        j <= list@.len(),
                        list@ == devs,
                        out@.map_values(|s: SimulatorInfo| s@) == head + devs.take(
                            j as int,
                        ).map_values(|d: DeviceEntry| device_record(d)),
                    decreases list@.len() - j,
                {
                    let d = &list[j];
                    let ghost prev = out@.map_values(|s: SimulatorInfo| s@);
                    out.push(
                        SimulatorInfo {
                            name: d.name.clone(),
                            identifier: d.identifier.clone(),
                            path: d.path.clone(),
                            version: None,
                            size: d.size,
                            is_available: d.is_available,
                            simulator_type: SimulatorKind::Device,
                        },
                    );
                    assert(out@.map_values(|s: SimulatorInfo| s@) =~= prev.push(device_record(*d)));
                    assert(devs.take(j + 1) =~= devs.take(j as int).push(*d));
                    assert(devs.take(j + 1).map_values(|d: DeviceEntry| device_record(d))
                        =~= devs.take(j as int).map_values(|d: DeviceEntry| device_record(d)).push(
                        device_record(*d),
                    ));
                    assert(out@.map_values(|s: SimulatorInfo| s@) =~= head + devs.take(
                        (j + 1) as int,
                    ).map_values(|d: DeviceEntry| device_record(d)));
                    j = j + 1;
                }
                assert(devs.take(list@.len() as int) =~= devs);
            }
            proof {
                let rs = runtimes@.take((i + 1) as int);
                assert(rs.drop_last() =~= runtimes@.take(i as int));
                assert(rs.last() == *m);
                assert(out@.map_values(|s: SimulatorInfo| s@) =~= simulator_inventory(
                    rs,
                    devices@,
                ));
            }
            i = i + 1;
        }
        assert(runtimes@.take(runtimes@.len() as int) =~= runtimes@);
        out
    }
}

} // verus!

use vstd::prelude::*;

use crate::audio::{devices_view, ids_of, AppState, AudioDevice, DeviceView, StateView};
use crate::sync::insert_id;

verus! {

/// The persisted configuration: the identifiers the user enabled.
#[derive(Debug, Clone)]
pub struct AppConfig {
    pub enabled_device_ids: Vec<String>,
}

impl View for AppConfig {
    type V = Set<Seq<char>>;

    open spec fn view(&self) -> Set<Seq<char>> {
        ids_of(self.enabled_device_ids@).to_set()
    }
}

/// The identifiers of a list of devices, in order.
pub open spec fn device_ids(devs: Seq<DeviceView>) -> Seq<Seq<char>> {
    devs.map_values(|d: DeviceView| d.id)
}

/// The enabled set a session starts with: the saved one, or every enumerated
/// device where nothing was saved.
pub open spec fn initial_enabled(saved: Set<Seq<char>>, devs: Seq<DeviceView>) -> Set<Seq<char>> {
    if saved == Set::<Seq<char>>::empty() {
        device_ids(devs).to_set()
    } else {
        saved
    }
}

impl AppConfig {
    /// A configuration that enables nothing, as when none was ever saved.
    pub fn new() -> (r: AppConfig)
        ensures
            r@ == Set::<Seq<char>>::empty(),
    {
        let r = AppConfig { enabled_device_ids: Vec::new() };
        assert(r@ =~= Set::<Seq<char>>::empty());
        r
    }

    /// The configuration to persist for `state`: its whole enabled set.
    pub fn from_state(state: &AppState) -> (r: AppConfig)
        ensures
            r@ == state@.enabled,
            r.enabled_device_ids@.len() == state.enabled_device_ids@.len(),
            state.wf() ==> ids_of(r.enabled_device_ids@).no_duplicates(),
    {
        let mut ids: Vec<String> = Vec::new();
        let mut i: usize = 0;
        let ghost src = ids_of(state.enabled_device_ids@);
        while i < state.enabled_device_ids.len()
            invariant
                i <= state.enabled_device_ids.len(),
                src == ids_of(state.enabled_device_ids@),
                ids_of(ids@) =~= src.take(i as int),
            decreases state.enabled_device_ids.len() - i,
        {
            let ghost before = ids_of(ids@);
            ids.push(state.enabled_device_ids[i].clone());
            assert(ids_of(ids@) =~= before.push(src[i as int]));
            assert(src.take(i + 1) =~= src.take(i as int).push(src[i as int]));
            i = i + 1;
        }
        assert(src.take(i as int) =~= src);
        AppConfig { enabled_device_ids: ids }
    }
}

/// The identifiers of `devices`, each once.
fn collect_device_ids(devices: &Vec<AudioDevice>) -> (r: Vec<String>)
    ensures
        ids_of(r@).no_duplicates(),
        ids_of(r@).to_set() == device_ids(devices_view(devices@)).to_set(),
{
    let ghost all = device_ids(devices_view(devices@));
    let mut ids: Vec<String> = Vec::new();
    let mut i: usize = 0;
    while i < devices.len()
        invariant
            i <= devices.len(),
            all == device_ids(devices_view(devices@)),
            ids_of(ids@).no_duplicates(),
            ids_of(ids@).to_set() == all.take(i as int).to_set(),
        decreases devices.len() - i,
    {
        proof {
            assert(all.take(i + 1) =~= all.take(i as int).push(all[i as int]));
            all.take(i as int).lemma_push_to_set_commute(all[i as int]);
        }
        insert_id(&mut ids, &devices[i].id);
        i = i + 1;
    }
    assert(all.take(i as int) =~= all);
    ids
}

/// The identifiers of `saved`, each once.
fn dedup_ids(saved: &Vec<String>) -> (r: Vec<String>)
    ensures
        ids_of(r@).no_duplicates(),
        ids_of(r@).to_set() == ids_of(saved@).to_set(),
{
    let ghost all = ids_of(saved@);
    let mut ids: Vec<String> = Vec::new();
    let mut i: usize = 0;
    while i < saved.len()
        invariant
            i <= saved.len(),
            all == ids_of(saved@),
            ids_of(ids@).no_duplicates(),
            ids_of(ids@).to_set() == all.take(i as int).to_set(),
        decreases saved.len() - i,
    {
        proof {
            assert(all.take(i + 1) =~= all.take(i as int).push(all[i as int]));
            all.take(i as int).lemma_push_to_set_commute(all[i as int]);
        }
        insert_id(&mut ids, &saved[i]);
        i = i + 1;
    }
    assert(all.take(i as int) =~= all);
    ids
}

/// Builds the state a session starts with, from the saved configuration, the
/// enumeration and the default-device query. A failed enumeration counts as no
/// devices, a failed query as no current device.
pub fn initialize(
    config: &AppConfig,
    devices: Result<Vec<AudioDevice>, String>,
    default_id: Result<String, String>,
) -> (r: AppState)
    ensures
        r.wf(),
        match devices {
            Ok(v) => r.all_devices == v,
            Err(_) => r.all_devices@.len() == 0,
        },
        match default_id {
            Ok(id) => r.current_device_id == Some(id),
            Err(_) => r.current_device_id is None,
        },
        r@.enabled == initial_enabled(config@, r@.devices),
{
    let all_devices = match devices {
        Ok(v) => v,
        Err(_) => Vec::new(),
    };
    let current_device_id = match default_id {
        Ok(id) => Some(id),
        Err(_) => None,
    };
    let enabled_device_ids = if config.enabled_device_ids.len() == 0 {
        assert(config@ =~= Set::<Seq<char>>::empty());
        collect_device_ids(&all_devices)
    } else {
        let ghost saved = ids_of(config.enabled_device_ids@);
        assert(saved[0] == config.enabled_device_ids@[0]@);
        assert(saved.contains(saved[0]));
        assert(config@.contains(saved[0]));
        dedup_ids(&config.enabled_device_ids)
    };
    AppState { all_devices, enabled_device_ids, current_device_id }
}

/// A non-empty enabled set that was saved comes back unchanged when a session
/// starts from it, whatever devices are enumerated.
pub proof fn lemma_saved_set_reloads(state: StateView, saved: Set<Seq<char>>, devs: Seq<DeviceView>)
    requires
        saved == state.enabled,
        state.enabled != Set::<Seq<char>>::empty(),
    ensures
        initial_enabled(saved, devs) == state.enabled,
{
}

/// A session that starts from an empty saved set enables every enumerated device.
pub proof fn lemma_empty_config_enables_all(saved: Set<Seq<char>>, devs: Seq<DeviceView>)
    requires
        saved == Set::<Seq<char>>::empty(),
    ensures
        forall|i: int| 0 <= i < devs.len() ==> initial_enabled(saved, devs).contains(#[trigger] devs[i].id),
{
    assert forall|i: int| 0 <= i < devs.len() implies initial_enabled(saved, devs).contains(
        #[trigger] devs[i].id,
    ) by {
        assert(device_ids(devs)[i] == devs[i].id);
    }
}

} // verus!

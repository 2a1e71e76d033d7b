use vstd::prelude::*;

use crate::audio::{contains_id, ids_of, AppState, AudioDevice};
use crate::panel::{devices_from_state, panels_view, project, PanelDevice};

verus! {

/// The enabled set after `id` was switched on (`enabled`) or off.
pub open spec fn with_enabled(set: Set<Seq<char>>, id: Seq<char>, enabled: bool) -> Set<Seq<char>> {
    if enabled {
        set.insert(id)
    } else {
        set.remove(id)
    }
}

/// Adds `id` to `ids` unless it is there already.
pub fn insert_id(ids: &mut Vec<String>, id: &String)
    ensures
        ids_of(old(ids)@).no_duplicates() ==> ids_of(final(ids)@).no_duplicates(),
        ids_of(final(ids)@).to_set() == ids_of(old(ids)@).to_set().insert(id@),
{
    if !contains_id(ids, id) {
        let ghost before = ids@;
        ids.push(id.clone());
        assert(ids_of(ids@) =~= ids_of(before).push(id@));
        proof {
            ids_of(before).lemma_push_to_set_commute(id@);
        }
    } else {
        assert(ids_of(ids@).to_set() =~= ids_of(ids@).to_set().insert(id@));
    }
}

/// The identifiers of `ids` other than `id`, in their order.
pub fn without_id(ids: &Vec<String>, id: &String) -> (r: Vec<String>)
    ensures
        ids_of(ids@).no_duplicates() ==> ids_of(r@).no_duplicates(),
        ids_of(r@).to_set() == ids_of(ids@).to_set().remove(id@),
{
    let ghost iv = ids_of(ids@);
    let mut kept: Vec<String> = Vec::new();
    let mut i: usize = 0;
    while i < ids.len()
        invariant
            i <= ids.len(),
            iv == ids_of(ids@),
            iv.no_duplicates() ==> ids_of(kept@).no_duplicates(),
            ids_of(kept@).to_set() == iv.take(i as int).to_set().remove(id@),
        decreases ids.len() - i,
    {
        assert(iv.take(i + 1) =~= iv.take(i as int).push(iv[i as int]));
        proof {
            iv.take(i as int).lemma_push_to_set_commute(iv[i as int]);
        }
        assert(iv.no_duplicates() ==> !iv.take(i as int).contains(iv[i as int]));
        if ids[i] != *id {
            let ghost before = ids_of(kept@);
            kept.push(ids[i].clone());
            assert(ids_of(kept@) =~= before.push(iv[i as int]));
            proof {
                before.lemma_push_to_set_commute(iv[i as int]);
            }
            assert(iv.no_duplicates() ==> !before.contains(iv[i as int])) by {
                if iv.no_duplicates() {
                    assert(!before.to_set().contains(iv[i as int]));
                }
            }
        }
        assert(ids_of(kept@).to_set() =~= iv.take(i + 1).to_set().remove(id@));
        i = i + 1;
    }
    assert(iv.take(i as int) =~= iv);
    kept
}

/// Switches device `device_id` on or off for the rotation and returns the
/// rows to show afterwards. Repeating a call changes nothing more; the device
/// list and the current device are left as they were.
pub fn set_enabled(state: &mut AppState, device_id: &String, enabled: bool) -> (r: Vec<PanelDevice>)
    ensures
        old(state).wf() ==> final(state).wf(),
        final(state).all_devices == old(state).all_devices,
        final(state).current_device_id == old(state).current_device_id,
        final(state)@.enabled == with_enabled(old(state)@.enabled, device_id@, enabled),
        panels_view(r@) == project(final(state)@),
{
    if enabled {
        insert_id(&mut state.enabled_device_ids, device_id);
    } else {
        let kept = without_id(&state.enabled_device_ids, device_id);
        state.enabled_device_ids = kept;
    }
    devices_from_state(state)
}

/// Flips whether device `device_id` takes part in the rotation and returns the
/// rows to show afterwards.
pub fn toggle_enabled(state: &mut AppState, device_id: &String) -> (r: Vec<PanelDevice>)
    ensures
        old(state).wf() ==> final(state).wf(),
        final(state).all_devices == old(state).all_devices,
        final(state).current_device_id == old(state).current_device_id,
        final(state)@.enabled == with_enabled(
            old(state)@.enabled,
            device_id@,
            !old(state)@.enabled.contains(device_id@),
        ),
        panels_view(r@) == project(final(state)@),
{
    let enabled = contains_id(&state.enabled_device_ids, device_id);
    set_enabled(state, device_id, !enabled)
}

/// Replaces the device list with a fresh enumeration; the enabled set and the
/// current device are kept, and entries that no longer match become inert.
pub fn replace_devices(state: &mut AppState, devices: Vec<AudioDevice>)
    ensures
        final(state).all_devices == devices,
        final(state).enabled_device_ids == old(state).enabled_device_ids,
        final(state).current_device_id == old(state).current_device_id,
{
    state.all_devices = devices;
}

/// Switching a device on or off twice in the same way leaves the same enabled
/// set as doing it once.
pub proof fn lemma_set_enabled_idempotent(set: Set<Seq<char>>, id: Seq<char>, enabled: bool)
    ensures
        with_enabled(with_enabled(set, id, enabled), id, enabled) == with_enabled(set, id, enabled),
{
    assert(with_enabled(with_enabled(set, id, enabled), id, enabled) =~= with_enabled(
        set,
        id,
        enabled,
    ));
}

} // verus!

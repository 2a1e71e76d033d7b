use vstd::prelude::*;

use crate::audio::{devices_view, find_device, has_id, first_index, AppState, DeviceView, StateView};

verus! {

/// One row of the device list shown to the user.
#[derive(Debug, Clone)]
pub struct PanelDevice {
    pub id: String,
    pub name: String,
    pub enabled: bool,
    pub is_current: bool,
}

/// The mathematical value of a [`PanelDevice`].
pub struct PanelView {
    pub id: Seq<char>,
    pub name: Seq<char>,
    pub enabled: bool,
    pub is_current: bool,
}

impl View for PanelDevice {
    type V = PanelView;

    open spec fn view(&self) -> PanelView {
        PanelView { id: self.id@, name: self.name@, enabled: self.enabled, is_current: self.is_current }
    }
}

/// The row shown for device `d` of state `s`.
pub open spec fn panel_of(s: StateView, d: DeviceView) -> PanelView {
    PanelView {
        id: d.id,
        name: d.name,
        enabled: s.enabled.contains(d.id),
        is_current: s.current == Some(d.id),
    }
}

/// The rows shown for state `s`: one per enumerated device, in enumeration order.
pub open spec fn project(s: StateView) -> Seq<PanelView> {
    s.devices.map_values(|d: DeviceView| panel_of(s, d))
}

/// The values of a list of rows, in order.
pub open spec fn panels_view(v: Seq<PanelDevice>) -> Seq<PanelView> {
    v.map_values(|p: PanelDevice| p@)
}

/// The tooltip text for state `s`: the application's name, followed by the
/// current device's name where a device is current.
pub open spec fn tooltip(s: StateView) -> Seq<char> {
    match s.current {
        None => "EasyAudioFlip"@,
        Some(id) => "EasyAudioFlip - "@ + if has_id(s.devices, id) {
            s.devices[first_index(s.devices, id)].name
        } else {
            "Unknown"@
        },
    }
}

/// Projects the state into the rows shown to the user, in enumeration order.
pub fn devices_from_state(state: &AppState) -> (r: Vec<PanelDevice>)
    ensures
        panels_view(r@) == project(state@),
{
    let ghost s = state@;
    let mut rows: Vec<PanelDevice> = Vec::new();
    let mut i: usize = 0;
    while i < state.all_devices.len()
        invariant
            i <= state.all_devices.len(),
            s == state@,
            panels_view(rows@) =~= project(s).take(i as int),
        decreases state.all_devices.len() - i,
    {
        let d = &state.all_devices[i];
        let enabled = crate::audio::contains_id(&state.enabled_device_ids, &d.id);
        let is_current = match &state.current_device_id {
            Some(c) => *c == d.id,
            None => false,
        };
        let row = PanelDevice { id: d.id.clone(), name: d.name.clone(), enabled, is_current };
        assert(row@ == panel_of(s, s.devices[i as int]));
        let ghost before = rows@;
        rows.push(row);
        assert(panels_view(rows@) =~= panels_view(before).push(row@));
        assert(project(s).take(i + 1) =~= project(s).take(i as int).push(project(s)[i as int]));
        i = i + 1;
    }
    rows
}

/// The tooltip text: "EasyAudioFlip - <name>" for the current device, with
/// "Unknown" where its identifier is not enumerated, and "EasyAudioFlip" where
/// no device is current.
pub fn get_tooltip_text(state: &AppState) -> (r: String)
    ensures
        r@ == tooltip(state@),
{
    match &state.current_device_id {
        Some(id) => {
            let name = match find_device(&state.all_devices, id) {
                Some(k) => {
                    proof {
                        let dv = devices_view(state.all_devices@);
                        assert(has_id(dv, id@)) by {
                            assert(dv[k as int].id == id@);
                        }
                        let f = first_index(dv, id@);
                        assert(crate::audio::is_first_at(dv, id@, f));
                        if f < k {
                            assert(dv[f].id != id@);
                        } else if k < f {
                            assert(dv[k as int].id != id@);
                        }
                    }
                    state.all_devices[k].name.clone()
                },
                None => String::from_str("Unknown"),
            };
            String::from_str("EasyAudioFlip - ").concat(name.as_str())
        },
        None => String::from_str("EasyAudioFlip"),
    }
}

/// The rows follow the enumeration order, one per device, whatever the enabled
/// set and the current device are.
pub proof fn lemma_project_keeps_order(s: StateView)
    ensures
        project(s).len() == s.devices.len(),
        forall|i: int|
            0 <= i < s.devices.len() ==> (#[trigger] project(s)[i]).id == s.devices[i].id
                && project(s)[i].name == s.devices[i].name,
{
}

/// Two states with the same device list project rows with the same identifiers
/// and names in the same order.
pub proof fn lemma_project_order_independent(s: StateView, t: StateView)
    requires
        s.devices == t.devices,
    ensures
        project(s).map_values(|p: PanelView| p.id) == project(t).map_values(|p: PanelView| p.id),
        project(s).map_values(|p: PanelView| p.name) == project(t).map_values(|p: PanelView| p.name),
{
    assert(project(s).map_values(|p: PanelView| p.id) =~= project(t).map_values(|p: PanelView| p.id));
    assert(project(s).map_values(|p: PanelView| p.name) =~= project(t).map_values(
        |p: PanelView| p.name,
    ));
}

} // verus!

use vstd::prelude::*;

verus! {

/// An audio output device as the enumerator reports it.
#[derive(Debug, Clone)]
pub struct AudioDevice {
    pub id: String,
    pub name: String,
}

/// The mathematical value of an [`AudioDevice`].
pub struct DeviceView {
    pub id: Seq<char>,
    pub name: Seq<char>,
}

impl View for AudioDevice {
    type V = DeviceView;

    open spec fn view(&self) -> DeviceView {
        DeviceView { id: self.id@, name: self.name@ }
    }
}

/// The identifier that the stand-in backend reports for its speaker.
pub open spec fn stub_speaker_id() -> Seq<char> {
    "stub-speaker"@
}

/// The identifier that the stand-in backend reports for its headphones.
pub open spec fn stub_headphone_id() -> Seq<char> {
    "stub-headphone"@
}

/// Prepares the platform audio layer. The stand-in backend has nothing to prepare.
pub fn init_com() -> (r: Result<(), String>)
    ensures
        r is Ok,
{
    Ok(())
}

/// Lists the active output devices: the stand-in backend reports a speaker and
/// a pair of headphones.
pub fn enumerate_devices() -> (r: Result<Vec<AudioDevice>, String>)
    ensures
        r is Ok,
        r->Ok_0@.len() == 2,
        r->Ok_0@[0]@ == (DeviceView { id: stub_speaker_id(), name: "Speakers (Stub)"@ }),
        r->Ok_0@[1]@ == (DeviceView { id: stub_headphone_id(), name: "Headphones (Stub)"@ }),
{
    let speaker = AudioDevice {
        id: String::from_str("stub-speaker"),
        name: String::from_str("Speakers (Stub)"),
    };
    let headphone = AudioDevice {
        id: String::from_str("stub-headphone"),
        name: String::from_str("Headphones (Stub)"),
    };
    Ok(vec![speaker, headphone])
}

/// Reads the current default output device: the stand-in backend reports its speaker.
pub fn get_default_device_id() -> (r: Result<String, String>)
    ensures
        r is Ok,
        r->Ok_0@ == stub_speaker_id(),
{
    Ok(String::from_str("stub-speaker"))
}

/// Makes `device_id` the default output device. The stand-in backend always accepts.
pub fn set_default_device(device_id: &str) -> (r: Result<(), String>)
    ensures
        r is Ok,
{
    Ok(())
}

/// The shared rotation state: the last enumeration, the enabled identifiers and
/// the device believed to be the default.
#[derive(Debug, Clone)]
pub struct AppState {
    pub all_devices: Vec<AudioDevice>,
    pub enabled_device_ids: Vec<String>,
    pub current_device_id: Option<String>,
}

/// The mathematical value of an [`AppState`].
pub struct StateView {
    pub devices: Seq<DeviceView>,
    pub enabled: Set<Seq<char>>,
    pub current: Option<Seq<char>>,
}

/// The identifiers held by a list of strings.
pub open spec fn ids_of(v: Seq<String>) -> Seq<Seq<char>> {
    v.map_values(|s: String| s@)
}

/// The value of an optional identifier.
pub open spec fn opt_id(o: Option<String>) -> Option<Seq<char>> {
    match o {
        Some(s) => Some(s@),
        None => None,
    }
}

/// The values of a list of devices, in order.
pub open spec fn devices_view(v: Seq<AudioDevice>) -> Seq<DeviceView> {
    v.map_values(|d: AudioDevice| d@)
}

impl View for AppState {
    type V = StateView;

    open spec fn view(&self) -> StateView {
        StateView {
            devices: devices_view(self.all_devices@),
            enabled: ids_of(self.enabled_device_ids@).to_set(),
            current: opt_id(self.current_device_id),
        }
    }
}

impl AppState {
    /// The enabled identifiers are held once each.
    pub open spec fn wf(&self) -> bool {
        ids_of(self.enabled_device_ids@).no_duplicates()
    }
}

/// The devices eligible for rotation: those of the enumeration whose identifier
/// is enabled, in enumeration order.
pub open spec fn rotation(s: StateView) -> Seq<DeviceView> {
    s.devices.filter(|d: DeviceView| s.enabled.contains(d.id))
}

/// Whether some device of `devs` has identifier `id`.
pub open spec fn has_id(devs: Seq<DeviceView>, id: Seq<char>) -> bool {
    exists|i: int| 0 <= i < devs.len() && #[trigger] devs[i].id == id
}

/// `i` is the first position of `devs` whose identifier is `id`.
pub open spec fn is_first_at(devs: Seq<DeviceView>, id: Seq<char>, i: int) -> bool {
    &&& 0 <= i < devs.len()
    &&& devs[i].id == id
    &&& forall|j: int| 0 <= j < i ==> #[trigger] devs[j].id != id
}

/// The first position of `devs` whose identifier is `id`.
pub open spec fn first_index(devs: Seq<DeviceView>, id: Seq<char>) -> int {
    choose|i: int| is_first_at(devs, id, i)
}

/// The position in `rot` from which the rotation advances: that of the current
/// device, or the first slot where it is unknown or not in `rot`.
pub open spec fn start_index(rot: Seq<DeviceView>, current: Option<Seq<char>>) -> int {
    match current {
        Some(id) => if has_id(rot, id) {
            first_index(rot, id)
        } else {
            0
        },
        None => 0,
    }
}

/// The device that follows the current one in the rotation, or `None` where
/// fewer than two devices are eligible.
pub open spec fn next_device(s: StateView) -> Option<DeviceView> {
    let rot = rotation(s);
    if rot.len() < 2 {
        None
    } else {
        Some(rot[(start_index(rot, s.current) + 1) % (rot.len() as int)])
    }
}

fn copy_device(d: &AudioDevice) -> (r: AudioDevice)
    ensures
        r@ == d@,
{
    AudioDevice { id: d.id.clone(), name: d.name.clone() }
}

/// Finds the first device of `devs` whose identifier is `id`.
pub fn find_device(devs: &Vec<AudioDevice>, id: &String) -> (r: Option<usize>)
    ensures
        match r {
            Some(i) => is_first_at(devices_view(devs@), id@, i as int),
            None => !has_id(devices_view(devs@), id@),
        },
{
    let ghost dv = devices_view(devs@);
    let mut i: usize = 0;
    while i < devs.len()
        invariant
            i <= devs.len(),
            dv == devices_view(devs@),
            forall|j: int| 0 <= j < i ==> #[trigger] dv[j].id != id@,
        decreases devs.len() - i,
    {
        if devs[i].id == *id {
            return Some(i);
        }
        i = i + 1;
    }
    None
}

/// Checks whether `id` is among `ids`.
pub fn contains_id(ids: &Vec<String>, id: &String) -> (r: bool)
    ensures
        r == ids_of(ids@).contains(id@),
{
    let ghost iv = ids_of(ids@);
    let mut i: usize = 0;
    while i < ids.len()
        invariant
            i <= ids.len(),
            iv == ids_of(ids@),
            forall|j: int| 0 <= j < i ==> #[trigger] iv[j] != id@,
        decreases ids.len() - i,
    {
        if ids[i] == *id {
            assert(iv[i as int] == id@);
            return true;
        }
        i = i + 1;
    }
    false
}

/// Collects the devices eligible for rotation, in enumeration order.
pub fn rotation_of(state: &AppState) -> (r: Vec<AudioDevice>)
    ensures
        devices_view(r@) == rotation(state@),
{
    let ghost s = state@;
    let ghost pred = |d: DeviceView| s.enabled.contains(d.id);
    let mut rot: Vec<AudioDevice> = Vec::new();
    let mut i: usize = 0;
    while i < state.all_devices.len()
        invariant
            i <= state.all_devices.len(),
            s == state@,
            pred == (|d: DeviceView| s.enabled.contains(d.id)),
            devices_view(rot@) == s.devices.take(i as int).filter(pred),
        decreases state.all_devices.len() - i,
    {
        let d = &state.all_devices[i];
        proof {
            reveal(Seq::filter);
            assert(s.devices.take(i + 1).drop_last() =~= s.devices.take(i as int));
            assert(s.devices.take(i + 1).last() == d@);
        }
        if contains_id(&state.enabled_device_ids, &d.id) {
            let c = copy_device(d);
            let ghost before = rot@;
            rot.push(c);
            assert(devices_view(rot@) =~= devices_view(before).push(d@));
        }
        i = i + 1;
    }
    assert(s.devices.take(i as int) =~= s.devices);
    rot
}

/// `after` differs from `before` only in that device `d` became the current one.
pub open spec fn moved_to(before: AppState, after: AppState, d: DeviceView) -> bool {
    &&& after.all_devices == before.all_devices
    &&& after.enabled_device_ids == before.enabled_device_ids
    &&& opt_id(after.current_device_id) == Some(d.id)
}

/// Picks the device that should become the default next, without touching the
/// state; `None` where fewer than two devices are eligible.
pub fn next_in_rotation(state: &AppState) -> (r: Option<AudioDevice>)
    ensures
        match r {
            Some(d) => next_device(state@) == Some(d@),
            None => next_device(state@) is None,
        },
{
    let rot = rotation_of(state);
    if rot.len() < 2 {
        return None;
    }
    let start: usize = match &state.current_device_id {
        Some(cid) => match find_device(&rot, cid) {
            Some(k) => {
                proof {
                    let rv = devices_view(rot@);
                    assert(has_id(rv, cid@)) by {
                        assert(rv[k as int].id == cid@);
                    }
                    let f = first_index(rv, cid@);
                    assert(is_first_at(rv, cid@, f));
                    if f < k {
                        assert(rv[f].id != cid@);
                    } else if k < f {
                        assert(rv[k as int].id != cid@);
                    }
                }
                k
            },
            None => 0,
        },
        None => 0,
    };
    let next: usize = (start + 1) % rot.len();
    Some(copy_device(&rot[next]))
}

/// Records the outcome of asking the platform to make `next` the default: on
/// success `next` becomes the current device and is returned; on failure the
/// state is left as it was and the error is handed back.
pub fn apply_set_outcome(
    state: &mut AppState,
    next: AudioDevice,
    outcome: Result<(), String>,
) -> (r: Result<Option<AudioDevice>, String>)
    ensures
        match outcome {
            Ok(()) => {
                &&& r == Ok::<Option<AudioDevice>, String>(Some(next))
                &&& final(state).all_devices == old(state).all_devices
                &&& final(state).enabled_device_ids == old(state).enabled_device_ids
                &&& final(state).current_device_id == Some(next.id)
            },
            Err(e) => r == Err::<Option<AudioDevice>, String>(e) && *final(state) == *old(state),
        },
{
    match outcome {
        Ok(()) => {
            state.current_device_id = Some(next.id.clone());
            Ok(Some(next))
        },
        Err(e) => Err(e),
    }
}

/// Advances the default device to the next one of the rotation. Where fewer
/// than two devices are eligible nothing changes and `Ok(None)` comes back.
pub fn toggle_next_device(state: &mut AppState) -> (r: Result<Option<AudioDevice>, String>)
    ensures
        rotation(old(state)@).len() < 2 ==> {
            &&& r == Ok::<Option<AudioDevice>, String>(None)
            &&& *final(state) == *old(state)
        },
        match next_device(old(state)@) {
            None => r == Ok::<Option<AudioDevice>, String>(None) && *final(state) == *old(state),
            Some(d) => {
                &&& r is Ok
                &&& r->Ok_0 matches Some(x) && x@ == d
                &&& moved_to(*old(state), *final(state), d)
            },
        },
{
    match next_in_rotation(state) {
        None => Ok(None),
        Some(next) => {
            let outcome = set_default_device(next.id.as_str());
            apply_set_outcome(state, next, outcome)
        },
    }
}

/// The identifiers of `devs` are pairwise different.
pub open spec fn distinct_ids(devs: Seq<DeviceView>) -> bool {
    forall|i: int, j: int| 0 <= i < j < devs.len() ==> #[trigger] devs[i].id != #[trigger] devs[j].id
}

/// Where the current device holds slot `k` of a rotation of at least two
/// devices with distinct identifiers, advancing picks slot `k + 1`, wrapping
/// round to the first slot after the last.
pub proof fn lemma_advance_to_successor(s: StateView, k: int)
    requires
        rotation(s).len() >= 2,
        distinct_ids(rotation(s)),
        0 <= k < rotation(s).len(),
        s.current == Some(rotation(s)[k].id),
    ensures
        next_device(s) == Some(rotation(s)[(k + 1) % (rotation(s).len() as int)]),
{
    let rot = rotation(s);
    let id = rot[k].id;
    assert(is_first_at(rot, id, k));
    assert(has_id(rot, id));
    let f = first_index(rot, id);
    assert(is_first_at(rot, id, f));
    if f < k {
        assert(rot[f].id != rot[k].id);
    } else if k < f {
        assert(rot[k].id != id);
    }
    assert(start_index(rot, s.current) == k);
}

/// For a rotation `[a, b, c]` of devices with distinct identifiers: advancing
/// from `b` picks `c`, and advancing from `c` wraps round to `a`.
pub proof fn lemma_advance_three(s: StateView)
    requires
        rotation(s).len() == 3,
        distinct_ids(rotation(s)),
    ensures
        s.current == Some(rotation(s)[1].id) ==> next_device(s) == Some(rotation(s)[2]),
        s.current == Some(rotation(s)[2].id) ==> next_device(s) == Some(rotation(s)[0]),
{
    if s.current == Some(rotation(s)[1].id) {
        lemma_advance_to_successor(s, 1);
    }
    if s.current == Some(rotation(s)[2].id) {
        lemma_advance_to_successor(s, 2);
    }
}

/// Where no device is current, or the current one is not in a rotation of at
/// least two devices, the rotation starts from its first slot, so advancing
/// picks the second.
pub proof fn lemma_unknown_current_starts_at_first(s: StateView)
    requires
        rotation(s).len() >= 2,
        match s.current {
            Some(id) => !has_id(rotation(s), id),
            None => true,
        },
    ensures
        start_index(rotation(s), s.current) == 0,
        next_device(s) == Some(rotation(s)[1]),
{
    let n = rotation(s).len() as int;
    assert((0int + 1) % n == 1) by (nonlinear_arith)
        requires
            n >= 2,
    ;
}

/// Where fewer than two devices are eligible there is no next device.
pub proof fn lemma_short_rotation_has_no_next(s: StateView)
    requires
        rotation(s).len() < 2,
    ensures
        next_device(s) is None,
{
}

} // verus!

use easyaudioflip::{
    apply_set_outcome, next_in_rotation, rotation_of, toggle_next_device, AppState, AudioDevice,
};

fn dev(id: &str) -> AudioDevice {
    AudioDevice { id: id.to_string(), name: format!("{} device", id) }
}

fn state(ids: &[&str], enabled: &[&str], current: Option<&str>) -> AppState {
    AppState {
        all_devices: ids.iter().map(|i| dev(i)).collect(),
        enabled_device_ids: enabled.iter().map(|i| i.to_string()).collect(),
        current_device_id: current.map(|c| c.to_string()),
    }
}

fn ids(devs: &[AudioDevice]) -> Vec<String> {
    devs.iter().map(|d| d.id.clone()).collect()
}

#[test]
fn single_enabled_device_is_no_change() {
    let mut s = state(&["a", "b"], &["a"], Some("a"));
    let r = toggle_next_device(&mut s).unwrap();
    assert!(r.is_none());
    assert_eq!(s.current_device_id.as_deref(), Some("a"));
    assert_eq!(s.enabled_device_ids, vec!["a".to_string()]);
}

#[test]
fn empty_rotation_is_no_change() {
    let mut s = state(&["a", "b"], &[], None);
    assert!(toggle_next_device(&mut s).unwrap().is_none());
    assert!(s.current_device_id.is_none());
}

#[test]
fn stale_enabled_ids_do_not_count() {
    let mut s = state(&["a"], &["a", "gone"], Some("a"));
    assert!(toggle_next_device(&mut s).unwrap().is_none());
    assert_eq!(s.current_device_id.as_deref(), Some("a"));
}

#[test]
fn rotation_keeps_enumeration_order() {
    let s = state(&["c", "a", "b"], &["b", "c"], None);
    assert_eq!(ids(&rotation_of(&s)), vec!["c".to_string(), "b".to_string()]);
}

#[test]
fn advance_from_middle_and_wrap() {
    let mut s = state(&["a", "b", "c"], &["a", "b", "c"], Some("b"));
    let r = toggle_next_device(&mut s).unwrap().unwrap();
    assert_eq!(r.id, "c");
    assert_eq!(r.name, "c device");
    assert_eq!(s.current_device_id.as_deref(), Some("c"));
    let r = toggle_next_device(&mut s).unwrap().unwrap();
    assert_eq!(r.id, "a");
    assert_eq!(s.current_device_id.as_deref(), Some("a"));
}

#[test]
fn unknown_current_starts_from_first_slot() {
    let mut s = state(&["a", "b", "c"], &["a", "b", "c"], None);
    let r = toggle_next_device(&mut s).unwrap().unwrap();
    assert_eq!(r.id, "b");
}

#[test]
fn stale_current_starts_from_first_slot() {
    let mut s = state(&["a", "b", "c"], &["a", "b", "c"], Some("unplugged"));
    let r = toggle_next_device(&mut s).unwrap().unwrap();
    assert_eq!(r.id, "b");
    assert_eq!(s.current_device_id.as_deref(), Some("b"));
}

#[test]
fn current_disabled_starts_from_first_slot() {
    let mut s = state(&["a", "b", "c"], &["b", "c"], Some("a"));
    assert_eq!(toggle_next_device(&mut s).unwrap().unwrap().id, "c");
}

#[test]
fn scenario_skip_disabled_device() {
    let mut s = state(&["A", "B", "C"], &["A", "C"], Some("A"));
    assert_eq!(toggle_next_device(&mut s).unwrap().unwrap().id, "C");
    assert_eq!(toggle_next_device(&mut s).unwrap().unwrap().id, "A");
}

#[test]
fn next_in_rotation_leaves_state_alone() {
    let s = state(&["a", "b"], &["a", "b"], Some("a"));
    assert_eq!(next_in_rotation(&s).unwrap().id, "b");
    assert_eq!(s.current_device_id.as_deref(), Some("a"));
    let lone = state(&["a", "b"], &["b"], Some("a"));
    assert!(next_in_rotation(&lone).is_none());
}

#[test]
fn failed_set_leaves_state_unchanged() {
    let mut s = state(&["a", "b"], &["a", "b"], Some("a"));
    let next = next_in_rotation(&s).unwrap();
    let r = apply_set_outcome(&mut s, next, Err("device refused".to_string()));
    assert_eq!(r.unwrap_err(), "device refused");
    assert_eq!(s.current_device_id.as_deref(), Some("a"));
}

#[test]
fn successful_set_moves_current() {
    let mut s = state(&["a", "b"], &["a", "b"], Some("a"));
    let next = next_in_rotation(&s).unwrap();
    let r = apply_set_outcome(&mut s, next, Ok(())).unwrap().unwrap();
    assert_eq!(r.id, "b");
    assert_eq!(s.current_device_id.as_deref(), Some("b"));
    assert_eq!(s.enabled_device_ids.len(), 2);
}

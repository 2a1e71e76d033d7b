use easyaudioflip::{enumerate_devices, get_default_device_id, init_com, set_default_device};

#[test]
fn stand_in_backend_answers() {
    assert!(init_com().is_ok());
    let devs = enumerate_devices().unwrap();
    assert_eq!(devs.len(), 2);
    assert_eq!(devs[0].id, "stub-speaker");
    assert_eq!(devs[0].name, "Speakers (Stub)");
    assert_eq!(devs[1].id, "stub-headphone");
    assert_eq!(devs[1].name, "Headphones (Stub)");
    assert_eq!(get_default_device_id().unwrap(), "stub-speaker");
    assert!(set_default_device("stub-headphone").is_ok());
}

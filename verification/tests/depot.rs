use bioreactor_hub::config::DeviceMetadata;
use bioreactor_hub::device::{
    Bioreactor, BioreactorDevice, DepotError, DeviceDepot, DeviceStatus, SetStatusError,
};
use bioreactor_hub::test_bioreactor::{TestReactor, TestReactorConfig};
use bioreactor_hub::views::{device_detail, device_summaries, device_update};

fn meta(id: &str, name: &str) -> DeviceMetadata {
    DeviceMetadata {
        id: id.to_string(),
        name: name.to_string(),
        description: None,
    }
}

fn test_device(id: &str, name: &str) -> BioreactorDevice {
    BioreactorDevice::Test(TestReactor::from_config(TestReactorConfig {
        meta: meta(id, name),
    }))
}

#[test]
fn build_registry_keeps_input_ids() {
    let depot = DeviceDepot::new(vec![
        test_device("a", "Reactor A"),
        test_device("b", "Reactor B"),
        test_device("c", "Reactor C"),
    ])
    .unwrap();
    assert_eq!(
        depot.device_ids(),
        vec!["a".to_string(), "b".to_string(), "c".to_string()]
    );
}

#[test]
fn duplicate_ids_reject_the_whole_build() {
    let result = DeviceDepot::new(vec![
        test_device("a", "Reactor A"),
        test_device("b", "Reactor B"),
        test_device("a", "Shadow of A"),
    ]);
    match result {
        Err(DepotError::DuplicateDeviceId) => {}
        _ => panic!("a duplicate identifier must reject the build"),
    }
    assert!(!DepotError::DuplicateDeviceId.message().is_empty());
}

#[test]
fn empty_registry_builds() {
    let depot = DeviceDepot::new(Vec::new()).unwrap();
    assert!(depot.device_ids().is_empty());
}

#[test]
fn membership_check_matches_the_key_set() {
    let depot = DeviceDepot::new(vec![
        test_device("a", "Reactor A"),
        test_device("b", "Reactor B"),
    ])
    .unwrap();
    assert!(depot.has_device("a"));
    assert!(depot.has_device("b"));
    assert!(!depot.has_device("c"));
    assert!(!depot.has_device(""));
}

#[test]
fn unknown_id_returns_none() {
    let depot = DeviceDepot::new(vec![test_device("a", "Reactor A")]).unwrap();
    assert!(depot.get_device("missing").is_none());
    assert!(depot.get_device_mut("missing").is_none());
    assert!(depot.update_target_status("missing", DeviceStatus::Active).is_none());
    assert!(device_detail(&depot, "missing").is_none());
}

#[test]
fn known_id_returns_a_guard() {
    let depot = DeviceDepot::new(vec![test_device("a", "Reactor A")]).unwrap();
    let handle = depot.get_device("a").unwrap();
    assert_eq!(handle.borrow().get_id(), "a");
    assert_eq!(handle.borrow().get_name(), "Reactor A");
    handle.release_read();
}

#[test]
fn write_guard_applies_an_update() {
    let depot = DeviceDepot::new(vec![test_device("a", "Reactor A")]).unwrap();
    let (mut device, handle) = depot.get_device_mut("a").unwrap();
    assert_eq!(device.set_target_status(DeviceStatus::Active), Ok(()));
    handle.release_write(device);

    let detail = device_detail(&depot, "a").unwrap();
    assert_eq!(detail.current_status, DeviceStatus::Active);
    assert_eq!(detail.target_status, DeviceStatus::Active);
}

#[test]
fn update_scenario_leaves_other_devices_alone() {
    let depot = DeviceDepot::new(vec![
        test_device("a", "Reactor A"),
        test_device("b", "Reactor B"),
    ])
    .unwrap();

    assert_eq!(
        depot.update_target_status("a", DeviceStatus::Active),
        Some(Ok(()))
    );

    let a = device_detail(&depot, "a").unwrap();
    assert_eq!(a.current_status, DeviceStatus::Active);
    assert_eq!(a.target_status, DeviceStatus::Active);

    let b = device_detail(&depot, "b").unwrap();
    assert_eq!(b.current_status, DeviceStatus::Inactive);
    assert_eq!(b.target_status, DeviceStatus::Inactive);
}

#[test]
fn offline_target_rejected_through_the_depot() {
    let depot = DeviceDepot::new(vec![test_device("a", "Reactor A")]).unwrap();
    assert_eq!(
        depot.update_target_status("a", DeviceStatus::Offline),
        Some(Err(SetStatusError::InvalidTarget))
    );
}

#[test]
fn device_update_reports_the_fresh_view() {
    let depot = DeviceDepot::new(vec![test_device("a", "Reactor A")]).unwrap();

    let view = device_update(&depot, "a", DeviceStatus::Active)
        .unwrap()
        .unwrap();
    assert_eq!(view.id, "a");
    assert_eq!(view.name, "Reactor A");
    assert_eq!(view.current_status, DeviceStatus::Active);
    assert_eq!(view.target_status, DeviceStatus::Active);

    assert!(device_update(&depot, "missing", DeviceStatus::Active).is_none());
    match device_update(&depot, "a", DeviceStatus::Offline) {
        Some(Err(SetStatusError::InvalidTarget)) => {}
        _ => panic!("an Offline target must be rejected"),
    }
}

#[test]
fn guards_on_distinct_devices_coexist() {
    let depot = DeviceDepot::new(vec![
        test_device("a", "Reactor A"),
        test_device("b", "Reactor B"),
    ])
    .unwrap();

    // Holding the write guard of one device must not block access to
    // another device: each identifier has its own lock.
    let (mut device_a, write_a) = depot.get_device_mut("a").unwrap();
    let read_b = depot.get_device("b").unwrap();
    assert_eq!(read_b.borrow().get_id(), "b");
    assert_eq!(device_a.set_target_status(DeviceStatus::Active), Ok(()));
    read_b.release_read();
    write_a.release_write(device_a);
}

#[test]
fn summaries_follow_depot_order() {
    let depot = DeviceDepot::new(vec![
        test_device("a", "Reactor A"),
        test_device("b", "Reactor B"),
    ])
    .unwrap();
    let summaries = device_summaries(&depot);
    assert_eq!(summaries.len(), 2);
    assert_eq!(summaries[0].id, "a");
    assert_eq!(summaries[0].name, "Reactor A");
    assert_eq!(summaries[0].status, DeviceStatus::Inactive);
    assert_eq!(summaries[1].id, "b");
}

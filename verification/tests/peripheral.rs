use bleep::peripheral::{peripheral_handles, PeripheralHandle, PeripheralProperties};

#[test]
fn peripheral_handles_keep_the_order_of_the_driver() {
    let handles =
        peripheral_handles(vec!["C4:7C:8D:6A:00:01", "00:11:22:33:44:55", "AA:BB:CC:DD:EE:FF"]);
    assert_eq!(handles.len(), 3);
    assert_eq!(*handles[0].peripheral(), "C4:7C:8D:6A:00:01");
    assert_eq!(*handles[1].peripheral(), "00:11:22:33:44:55");
    assert_eq!(*handles[2].peripheral(), "AA:BB:CC:DD:EE:FF");
}

#[test]
fn two_enumerations_of_an_unchanged_set_are_equivalent() {
    let known = vec![7u64, 3, 9, 3, 1];
    let first = peripheral_handles(known.clone());
    let second = peripheral_handles(known.clone());
    assert_eq!(first.len(), second.len());
    for i in 0..first.len() {
        assert_eq!(first[i].peripheral(), second[i].peripheral());
        assert_eq!(*first[i].peripheral(), known[i]);
    }
}

#[test]
fn peripheral_handles_of_no_peripheral() {
    let handles: Vec<PeripheralHandle<u8>> = peripheral_handles(Vec::new());
    assert!(handles.is_empty());
}

#[test]
fn a_peripheral_handle_gives_its_peripheral() {
    let handle = PeripheralHandle::new(std::sync::Arc::new(String::from("device")));
    assert_eq!(handle.peripheral().as_str(), "device");
}

#[test]
fn properties_hold_the_local_name() {
    let named = PeripheralProperties::new(Some(String::from("Polar H10")), Vec::new());
    assert_eq!(named.local_name(), Some(String::from("Polar H10")));
    let unnamed = PeripheralProperties::new(None, Vec::new());
    assert_eq!(unnamed.local_name(), None);
}

#[test]
fn properties_give_the_advertised_services_as_text() {
    let properties = PeripheralProperties::new(
        None,
        vec![
            0x0000180d_0000_1000_8000_00805f9b34fb,
            0x6e400001_b5a3_f393_e0a9_e50e24dcca9e,
            0x0000180d_0000_1000_8000_00805f9b34fb,
        ],
    );
    assert_eq!(
        properties.services(),
        vec![
            String::from("0000180d-0000-1000-8000-00805f9b34fb"),
            String::from("6e400001-b5a3-f393-e0a9-e50e24dcca9e"),
        ]
    );
}

#[test]
fn a_service_that_is_advertised_twice_is_held_once() {
    let properties = PeripheralProperties::new(None, vec![5, 5]);
    assert_eq!(properties.services(), vec![String::from("00000000-0000-0000-0000-000000000005")]);
}

#[test]
fn of_the_advertised_services_the_first_occurrences_stay_in_their_order() {
    let properties = PeripheralProperties::new(None, vec![9, 3, 9, 7, 3, 3, 1, 7, 9]);
    assert_eq!(
        properties.services(),
        vec![
            String::from("00000000-0000-0000-0000-000000000009"),
            String::from("00000000-0000-0000-0000-000000000003"),
            String::from("00000000-0000-0000-0000-000000000007"),
            String::from("00000000-0000-0000-0000-000000000001"),
        ]
    );
}

#[test]
fn no_text_occurs_twice_among_the_advertised_services() {
    let mut advertised = Vec::new();
    for round in 0..4u128 {
        for id in [u128::MAX, 0, 1 << 64, 0x180d, 0x180f, 0] {
            advertised.push(id);
            advertised.push(id ^ round);
        }
    }
    let mut distinct: Vec<u128> = Vec::new();
    for id in &advertised {
        if !distinct.contains(id) {
            distinct.push(*id);
        }
    }
    let texts = PeripheralProperties::new(None, advertised).services();
    assert_eq!(texts.len(), distinct.len());
    for (text, id) in texts.iter().zip(&distinct) {
        assert_eq!(uuid::Uuid::parse_str(text).unwrap().as_u128(), *id);
    }
    for i in 0..texts.len() {
        for j in 0..i {
            assert_ne!(texts[i], texts[j]);
        }
    }
}

#[test]
fn services_that_are_advertised_once_are_all_held() {
    let properties = PeripheralProperties::new(None, vec![3, 1, 2]);
    assert_eq!(
        properties.services(),
        vec![
            String::from("00000000-0000-0000-0000-000000000003"),
            String::from("00000000-0000-0000-0000-000000000001"),
            String::from("00000000-0000-0000-0000-000000000002"),
        ]
    );
}

#[test]
fn properties_without_services_give_none() {
    let properties = PeripheralProperties::new(Some(String::new()), Vec::new());
    assert!(properties.services().is_empty());
    assert_eq!(properties.local_name(), Some(String::new()));
}

#[test]
fn properties_of_a_peripheral_that_was_not_discovered_are_none() {
    let outcome: Result<Option<PeripheralProperties>, String> = Ok(None);
    assert!(bleep::bridge::bridge(outcome).unwrap().is_none());
    let found: Result<Option<PeripheralProperties>, String> =
        Ok(Some(PeripheralProperties::new(Some(String::from("Tag")), vec![0x180f])));
    let properties = bleep::bridge::bridge(found).unwrap().unwrap();
    assert_eq!(properties.local_name(), Some(String::from("Tag")));
    assert_eq!(properties.services(), vec![String::from("00000000-0000-0000-0000-00000000180f")]);
    let failed: Result<Option<PeripheralProperties>, String> = Err(String::from("no adapter"));
    assert_eq!(bleep::bridge::bridge(failed).unwrap_err().message(), "no adapter");
}

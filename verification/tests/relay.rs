use bleep::relay::{NotificationEvent, Relay, RelayAction};

const UUID_A: u128 = 0x6e400003_b5a3_f393_e0a9_e50e24dcca9e;
const TEXT_A: &str = "6e400003-b5a3-f393-e0a9-e50e24dcca9e";
const UUID_B: u128 = 0x00002a37_0000_1000_8000_00805f9b34fb;
const TEXT_B: &str = "00002a37-0000-1000-8000-00805f9b34fb";

/// Runs a relay over what a stream yields, as the task that drains the stream
/// does, and records the calls that reach the callback.
fn run(
    items: Vec<Option<NotificationEvent>>,
    callback: &mut dyn FnMut(String, Vec<u8>) -> Result<(), String>,
) -> (Relay, Vec<String>) {
    let mut relay = Relay::new();
    let mut logged = Vec::new();
    for item in items {
        match relay.on_item(item) {
            RelayAction::Deliver(delivery) => {
                let (uuid, payload) = delivery.into_parts();
                let outcome = callback(uuid, payload);
                if let Some(message) = relay.on_callback(outcome) {
                    logged.push(message);
                }
            }
            RelayAction::Stop => break,
        }
    }
    (relay, logged)
}

#[test]
fn three_events_reach_the_callback_in_order() {
    let mut calls: Vec<(String, Vec<u8>)> = Vec::new();
    let items = vec![
        Some(NotificationEvent::new(UUID_A, vec![0x01])),
        Some(NotificationEvent::new(UUID_A, vec![0x02])),
        Some(NotificationEvent::new(UUID_A, vec![0x03])),
    ];
    let (relay, logged) = run(items, &mut |uuid, payload| {
        calls.push((uuid, payload));
        Ok(())
    });
    assert_eq!(
        calls,
        vec![
            (String::from(TEXT_A), vec![0x01]),
            (String::from(TEXT_A), vec![0x02]),
            (String::from(TEXT_A), vec![0x03]),
        ]
    );
    assert!(logged.is_empty());
    assert!(!relay.is_ended());
}

#[test]
fn a_callback_that_fails_on_the_first_event_gets_the_second() {
    let mut calls: Vec<Vec<u8>> = Vec::new();
    let items = vec![
        Some(NotificationEvent::new(UUID_A, vec![0x01])),
        Some(NotificationEvent::new(UUID_A, vec![0x02])),
    ];
    let (relay, logged) = run(items, &mut |_, payload| {
        calls.push(payload);
        if calls.len() == 1 {
            Err(String::from("ValueError: boom"))
        } else {
            Ok(())
        }
    });
    assert_eq!(calls, vec![vec![0x01], vec![0x02]]);
    assert_eq!(logged, vec![String::from("ValueError: boom")]);
    assert!(!relay.is_ended());
}

#[test]
fn a_callback_that_always_fails_gets_every_event() {
    let mut count = 0;
    let items = (0..10u8).map(|i| Some(NotificationEvent::new(UUID_B, vec![i]))).collect();
    let (_, logged) = run(items, &mut |_, _| {
        count += 1;
        Err(format!("failure {count}"))
    });
    assert_eq!(count, 10);
    assert_eq!(logged.len(), 10);
    assert_eq!(logged[9], "failure 10");
}

#[test]
fn events_of_two_characteristics_keep_the_order_of_the_driver() {
    let mut calls: Vec<(String, Vec<u8>)> = Vec::new();
    let items = vec![
        Some(NotificationEvent::new(UUID_A, vec![1])),
        Some(NotificationEvent::new(UUID_B, vec![2, 2])),
        Some(NotificationEvent::new(UUID_A, vec![])),
        Some(NotificationEvent::new(UUID_B, vec![4])),
    ];
    run(items, &mut |uuid, payload| {
        calls.push((uuid, payload));
        Ok(())
    });
    assert_eq!(
        calls,
        vec![
            (String::from(TEXT_A), vec![1]),
            (String::from(TEXT_B), vec![2, 2]),
            (String::from(TEXT_A), vec![]),
            (String::from(TEXT_B), vec![4]),
        ]
    );
}

#[test]
fn the_end_of_the_stream_ends_the_relay() {
    let mut relay = Relay::new();
    assert!(!relay.is_ended());
    assert!(matches!(
        relay.on_item(Some(NotificationEvent::new(UUID_A, vec![9]))),
        RelayAction::Deliver(_)
    ));
    assert!(!relay.is_ended());
    assert!(matches!(relay.on_item(None), RelayAction::Stop));
    assert!(relay.is_ended());
}

#[test]
fn nothing_is_delivered_after_the_end_of_the_stream() {
    let mut relay = Relay::new();
    assert!(matches!(relay.on_item(None), RelayAction::Stop));
    assert!(matches!(
        relay.on_item(Some(NotificationEvent::new(UUID_A, vec![1]))),
        RelayAction::Stop
    ));
    assert!(matches!(relay.on_item(None), RelayAction::Stop));
    assert!(relay.is_ended());
}

#[test]
fn a_stream_that_ends_at_once_reaches_no_callback() {
    let mut count = 0;
    let items = vec![None, Some(NotificationEvent::new(UUID_A, vec![1]))];
    let (relay, logged) = run(items, &mut |_, _| {
        count += 1;
        Ok(())
    });
    assert_eq!(count, 0);
    assert!(logged.is_empty());
    assert!(relay.is_ended());
}

#[test]
fn a_delivery_holds_the_uuid_as_text_and_the_bytes_untouched() {
    let mut relay = Relay::new();
    match relay.on_item(Some(NotificationEvent::new(UUID_B, vec![0xDE, 0xAD, 0x00, 0xff]))) {
        RelayAction::Deliver(delivery) => {
            assert_eq!(delivery.uuid(), TEXT_B);
            assert_eq!(delivery.payload(), &vec![0xDE, 0xAD, 0x00, 0xff]);
        }
        RelayAction::Stop => panic!("an event before the end must be delivered"),
    }
}

#[test]
fn the_outcome_of_a_callback_is_handed_back_for_the_log() {
    let relay = Relay::new();
    assert_eq!(relay.on_callback(Ok(())), None);
    assert_eq!(
        relay.on_callback(Err(String::from("TypeError"))),
        Some(String::from("TypeError"))
    );
    assert!(!relay.is_ended());
}

#[test]
fn an_event_holds_its_uuid_and_value() {
    let event = NotificationEvent::new(UUID_A, vec![1, 2, 3]);
    assert_eq!(event.uuid_value(), UUID_A);
    assert_eq!(event.value(), &vec![1, 2, 3]);
}

#[test]
fn a_new_relay_after_an_ended_one_delivers_again() {
    let mut ended = Relay::new();
    assert!(matches!(ended.on_item(None), RelayAction::Stop));
    let mut fresh = Relay::new();
    assert!(!fresh.is_ended());
    assert!(matches!(
        fresh.on_item(Some(NotificationEvent::new(UUID_A, vec![7]))),
        RelayAction::Deliver(_)
    ));
    assert!(ended.is_ended());
}

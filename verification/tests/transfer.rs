use bleep::bridge::{bridge, OperationFailed};
use bleep::entity::Entity;
use bleep::gatt::{Characteristic, Descriptor};
use bleep::transfer::{WriteRequest, WriteType};

fn characteristic() -> Characteristic {
    Characteristic::new(0x2a37, 0x180d, 0x0c, vec![Descriptor::new(0x2902, 0x180d, 0x2a37)])
}

#[test]
fn a_write_with_response_asks_the_driver_for_one() {
    let request = WriteRequest::new(characteristic(), vec![1, 2, 3], true);
    assert_eq!(request.write_type(), WriteType::WithResponse);
}

#[test]
fn a_write_without_response_asks_the_driver_for_none() {
    let request = WriteRequest::new(characteristic(), vec![1, 2, 3], false);
    assert_eq!(request.write_type(), WriteType::WithoutResponse);
}

#[test]
fn the_two_ways_of_delivery_are_distinct() {
    let with = WriteRequest::new(characteristic(), Vec::new(), true).write_type();
    let without = WriteRequest::new(characteristic(), Vec::new(), false).write_type();
    assert_ne!(with, without);
}

#[test]
fn a_write_request_carries_the_payload_and_the_characteristic() {
    let request = WriteRequest::new(characteristic(), vec![0x00, 0xff, 0x7f, 0x80], false);
    assert_eq!(request.payload(), &vec![0x00, 0xff, 0x7f, 0x80]);
    assert_eq!(request.characteristic().uuid_value(), 0x2a37);
    assert_eq!(request.characteristic().service_uuid(), 0x180d);
    assert_eq!(request.characteristic().properties(), 0x0c);
    assert!(request.characteristic().descriptors().contains(0x2902));
    let empty = WriteRequest::new(characteristic(), Vec::new(), true);
    assert!(empty.payload().is_empty());
}

#[test]
fn a_read_returns_the_bytes_of_the_driver() {
    let outcome: Result<Vec<u8>, String> = Ok(vec![0xDE, 0xAD]);
    match bridge(outcome) {
        Ok(bytes) => assert_eq!(bytes, vec![0xDE, 0xAD]),
        Err(_) => panic!("a read that succeeded must succeed"),
    }
}

#[test]
fn a_read_of_bytes_that_are_no_text_returns_them_untouched() {
    let bytes = vec![0xff, 0xfe, 0x00, 0xc3, 0x28];
    assert_eq!(bridge(Ok::<Vec<u8>, String>(bytes.clone())).unwrap(), bytes);
    assert_eq!(bridge(Ok::<Vec<u8>, String>(Vec::new())).unwrap(), Vec::<u8>::new());
}

#[test]
fn a_failure_carries_the_message_of_the_driver() {
    let outcome: Result<(), String> = Err(String::from("Not connected"));
    match bridge(outcome) {
        Ok(()) => panic!("a failure must stay a failure"),
        Err(failure) => assert_eq!(failure.message(), "Not connected"),
    }
}

#[test]
fn success_without_a_value_stays_success() {
    assert!(bridge(Ok::<(), String>(())).is_ok());
    assert_eq!(bridge(Ok::<String, String>(String::from("hci0 (usb)"))).unwrap(), "hci0 (usb)");
    assert_eq!(bridge(Ok::<Option<u8>, String>(None)).unwrap(), None);
}

#[test]
fn an_operation_failure_holds_its_message() {
    let failure = OperationFailed::new(String::from("Timed out after 30s"));
    assert_eq!(failure.message(), "Timed out after 30s");
    assert_eq!(OperationFailed::new(String::new()).message(), "");
}

/// A driver double for writes. It accepts every request for transmission at
/// once, and completes it as the way of delivery says: a write with response
/// when the peripheral has acknowledged it, a write without response on
/// acceptance.
struct WriteDouble {
    accepted: Option<WriteType>,
    acknowledged: bool,
}

impl WriteDouble {
    fn new() -> Self {
        WriteDouble { accepted: None, acknowledged: false }
    }

    fn submit(&mut self, request: &WriteRequest) {
        self.accepted = Some(request.write_type());
    }

    fn acknowledge(&mut self) {
        self.acknowledged = true;
    }

    /// What the write has come to so far, as the host sees it.
    fn resolved(&self) -> Option<Result<(), OperationFailed>> {
        let done = match self.accepted {
            Some(WriteType::WithoutResponse) => true,
            Some(WriteType::WithResponse) => self.acknowledged,
            None => false,
        };
        if done {
            Some(bridge(Ok::<(), String>(())))
        } else {
            None
        }
    }
}

#[test]
fn a_write_with_response_resolves_after_the_acknowledgment() {
    let mut driver = WriteDouble::new();
    let request = WriteRequest::new(characteristic(), vec![0x01], true);
    driver.submit(&request);
    assert!(driver.resolved().is_none());
    driver.acknowledge();
    assert!(matches!(driver.resolved(), Some(Ok(()))));
}

#[test]
fn a_write_without_response_resolves_on_acceptance() {
    let mut driver = WriteDouble::new();
    let request = WriteRequest::new(characteristic(), vec![0x01], false);
    assert!(driver.resolved().is_none());
    driver.submit(&request);
    assert!(matches!(driver.resolved(), Some(Ok(()))));
    driver.acknowledge();
    assert!(matches!(driver.resolved(), Some(Ok(()))));
}

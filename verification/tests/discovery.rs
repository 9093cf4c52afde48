use blec::handler::BleHandler;
use blec::scan::{discover_polls, should_send_batch};
use blec::types::{BleAddress, BleDevice};

fn dev(bits: u64, name: &str, rssi: i16) -> BleDevice {
    BleDevice {
        address: BleAddress { bits },
        name: String::from(name),
        rssi: Some(rssi),
        is_connected: false,
    }
}

#[test]
fn zero_timeout_polls_nothing() {
    assert_eq!(discover_polls(0), 0);
}

#[test]
fn poll_budget_rounds_to_nearest() {
    assert_eq!(discover_polls(99), 0);
    assert_eq!(discover_polls(100), 1);
    assert_eq!(discover_polls(200), 1);
    assert_eq!(discover_polls(299), 1);
    assert_eq!(discover_polls(300), 2);
    assert_eq!(discover_polls(1000), 5);
}

#[test]
fn two_peripherals_listed_in_address_order() {
    let mut h = BleHandler::new();
    // Advertised out of order: the batch comes back sorted ascending.
    let polled = vec![
        Some(dev(0xAAAAAAAAAA02, "beta", -70)),
        Some(dev(0xAAAAAAAAAA01, "alpha", -60)),
    ];
    let batch = h.add_devices(&polled);
    assert_eq!(batch.len(), 2);
    assert_eq!(batch[0].address.bits, 0xAAAAAAAAAA01);
    assert_eq!(batch[0].name, "alpha");
    assert_eq!(batch[0].rssi, Some(-60));
    assert_eq!(batch[1].address.bits, 0xAAAAAAAAAA02);
    assert_eq!(batch[1].name, "beta");
    assert_eq!(batch[1].rssi, Some(-70));
}

#[test]
fn batch_never_repeats_an_address() {
    let mut h = BleHandler::new();
    let polled = vec![
        Some(dev(7, "first", -40)),
        Some(dev(7, "second", -41)),
    ];
    let batch = h.add_devices(&polled);
    assert_eq!(batch.len(), 1);
    // The later projection of the same peripheral wins.
    assert_eq!(batch[0].name, "second");
    assert_eq!(batch[0].rssi, Some(-41));
}

#[test]
fn failed_projection_is_skipped() {
    let mut h = BleHandler::new();
    let polled = vec![None, Some(dev(9, "kept", -50)), None];
    let batch = h.add_devices(&polled);
    assert_eq!(batch.len(), 1);
    assert_eq!(batch[0].address.bits, 9);
}

#[test]
fn registry_accumulates_and_scan_start_clears_it() {
    let mut h = BleHandler::new();
    h.add_devices(&vec![Some(dev(1, "a", -1))]);
    h.add_devices(&vec![Some(dev(2, "b", -2))]);
    assert!(!h.registry_is_empty());
    assert!(h.knows_address(BleAddress { bits: 1 }));
    assert!(h.knows_address(BleAddress { bits: 2 }));
    h.discover_begin();
    assert!(h.registry_is_empty());
    assert!(!h.knows_address(BleAddress { bits: 1 }));
}

#[test]
fn only_nonempty_batches_go_to_a_sink() {
    let empty: Vec<BleDevice> = Vec::new();
    let full = vec![dev(3, "c", -3)];
    assert!(!should_send_batch(&empty, true));
    assert!(!should_send_batch(&full, false));
    assert!(should_send_batch(&full, true));
}

#[test]
fn repeated_poll_updates_known_device() {
    let mut h = BleHandler::new();
    h.add_devices(&vec![Some(dev(5, "old", -80))]);
    let batch = h.add_devices(&vec![Some(dev(5, "new", -20))]);
    assert_eq!(batch.len(), 1);
    assert_eq!(batch[0].name, "new");
    assert_eq!(batch[0].rssi, Some(-20));
}

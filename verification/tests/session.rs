use blec::handler::{BleHandler, DisconnectPrep};
use blec::types::{
    AdapterEvent, BleAddress, BleDevice, BleUuid, CallbackId, Characteristic, Error, GattService,
};
use blec::{get_handler, init, select_adapter, HandlerSlot};

const ADDR_1: u64 = 0xAAAAAAAAAA01;
const ADDR_99: u64 = 0xAAAAAAAAAA99;
const SVC: u128 = 0x1000;
const C1: u128 = 0x2001;
const C2: u128 = 0x2002;
const C3: u128 = 0x2003;

fn dev(bits: u64, name: &str, rssi: i16) -> BleDevice {
    BleDevice {
        address: BleAddress { bits },
        name: String::from(name),
        rssi: Some(rssi),
        is_connected: false,
    }
}

fn charac(bits: u128) -> Characteristic {
    Characteristic { uuid: BleUuid { bits } }
}

fn service_with(chars: &[u128]) -> GattService {
    GattService {
        uuid: BleUuid { bits: SVC },
        characteristics: chars.iter().map(|&b| charac(b)).collect(),
    }
}

/// A session connected to `ADDR_1` with characteristics C1 and C2 resolved,
/// a hook installed and the pump recorded as running.
fn connected_session() -> BleHandler {
    let mut h = BleHandler::new();
    h.add_devices(&vec![Some(dev(ADDR_1, "alpha", -60)), Some(dev(ADDR_1 + 1, "beta", -70))]);
    let target = BleAddress { bits: ADDR_1 };
    assert!(h.connect_check(target).is_ok());
    h.connect_publish(target);
    let services = vec![service_with(&[C1, C2, C3])];
    let requested = vec![BleUuid { bits: C1 }, BleUuid { bits: C2 }];
    h.connect_service(BleUuid { bits: SVC }, &requested, &services).unwrap();
    h.connect_finish(true);
    h
}

#[test]
fn fresh_manager_is_idle_and_empty() {
    let h = BleHandler::new();
    assert!(h.connected.is_none());
    assert!(h.characs.is_empty());
    assert!(h.listeners.is_empty());
    assert!(!h.pump_running);
    assert!(!h.has_hook);
    assert!(h.registry_is_empty());
}

#[test]
fn adapter_selection() {
    assert!(matches!(select_adapter(0), Err(Error::NoAdapters)));
    assert_eq!(select_adapter(2).unwrap(), 0);
}

#[test]
fn slot_refuses_access_before_init_and_sets_once() {
    let mut slot = HandlerSlot::empty();
    assert!(matches!(get_handler(&slot), Err(Error::HandlerNotInitialized)));
    assert!(init(&mut slot, BleHandler::new()));
    assert!(get_handler(&slot).is_ok());
    assert!(!init(&mut slot, BleHandler::new()));
}

#[test]
fn canonical_address_text() {
    let a = BleAddress { bits: 0xAABBCCDDEEFF };
    assert_eq!(a.text(), "AA:BB:CC:DD:EE:FF");
    let b = BleAddress { bits: ADDR_99 };
    assert_eq!(b.text(), "AA:AA:AA:AA:AA:99");
    let zero = BleAddress { bits: 0 };
    assert_eq!(zero.text(), "00:00:00:00:00:00");
    let one = BleAddress { bits: 0x0102030A0B10 };
    assert_eq!(one.text(), "01:02:03:0A:0B:10");
}

#[test]
fn connect_unknown_peripheral_names_the_address() {
    // Empty registry and nothing advertised: after the bootstrap scan the
    // target is still unknown.
    let h = BleHandler::new();
    assert!(h.registry_is_empty());
    match h.connect_check(BleAddress { bits: ADDR_99 }) {
        Err(Error::UnknownPeripheral(text)) => assert_eq!(text, "AA:AA:AA:AA:AA:99"),
        other => panic!("expected UnknownPeripheral, got {:?}", other),
    }
}

#[test]
fn connect_to_connected_address_is_rejected_without_change() {
    let h = connected_session();
    let before_characs = h.characs.clone();
    let r = h.connect_check(BleAddress { bits: ADDR_1 });
    assert!(matches!(r, Err(Error::AlreadyConnected)));
    assert_eq!(h.connected, Some(BleAddress { bits: ADDR_1 }));
    assert_eq!(h.characs.len(), before_characs.len());
    assert!(h.pump_running);
    assert!(h.has_hook);
}

#[test]
fn resolution_retains_requested_characteristics_in_service_order() {
    let h = connected_session();
    assert_eq!(h.characs, vec![charac(C1), charac(C2)]);
}

#[test]
fn resolution_fails_without_the_service() {
    let mut h = BleHandler::new();
    h.add_devices(&vec![Some(dev(ADDR_1, "alpha", -60))]);
    let target = BleAddress { bits: ADDR_1 };
    h.connect_check(target).unwrap();
    h.connect_publish(target);
    let services = vec![GattService {
        uuid: BleUuid { bits: 0xDEAD },
        characteristics: vec![charac(C1)],
    }];
    let r = h.connect_service(BleUuid { bits: SVC }, &vec![BleUuid { bits: C1 }], &services);
    assert!(matches!(r, Err(Error::ServiceNotFound)));
    // The failure path then rolls the session back to idle, registry intact.
    let abort = h.connect_rollback();
    assert!(!abort);
    assert!(h.connected.is_none());
    assert!(h.characs.is_empty());
    assert!(!h.registry_is_empty());
}

#[test]
fn subscribe_dispatches_to_matching_listeners_in_order() {
    let mut h = connected_session();
    let c1 = h.get_charac(BleUuid { bits: C1 }).unwrap();
    h.subscribe(c1, CallbackId { token: 11 });
    // A notification on C1 reaches the one listener; one on C2 reaches none.
    assert_eq!(h.notify_targets(BleUuid { bits: C1 }), vec![CallbackId { token: 11 }]);
    assert_eq!(h.notify_targets(BleUuid { bits: C2 }), Vec::<CallbackId>::new());
    // Subscribing the same characteristic again is additive.
    h.subscribe(c1, CallbackId { token: 12 });
    assert_eq!(
        h.notify_targets(BleUuid { bits: C1 }),
        vec![CallbackId { token: 11 }, CallbackId { token: 12 }]
    );
}

#[test]
fn listener_identifiers_come_from_the_resolved_list() {
    let mut h = connected_session();
    assert!(matches!(
        h.get_charac(BleUuid { bits: C3 }),
        Err(Error::CharacNotAvailable(BleUuid { bits: C3 }))
    ));
    let c2 = h.get_charac(BleUuid { bits: C2 }).unwrap();
    h.subscribe(c2, CallbackId { token: 7 });
    for l in &h.listeners {
        assert!(h.characs.iter().any(|c| c.uuid == l.uuid));
    }
}

#[test]
fn send_target_resolution() {
    let h = connected_session();
    let c = h.get_charac(BleUuid { bits: C1 }).unwrap();
    assert_eq!(c.uuid.bits, C1);
    assert!(matches!(
        h.get_charac(BleUuid { bits: 0xBEEF }),
        Err(Error::CharacNotAvailable(_))
    ));
}

#[test]
fn disconnect_from_idle_is_a_noop_success() {
    let mut h = BleHandler::new();
    let prep = h.disconnect_begin();
    assert_eq!(prep, DisconnectPrep { abort_pump: false, peripheral: None });
    let fired = h.disconnect_finish();
    assert!(!fired);
    assert!(h.connected.is_none());
    assert!(h.characs.is_empty());
    assert!(h.listeners.is_empty());
    assert!(!h.pump_running);
    assert!(!h.has_hook);
    assert!(h.registry_is_empty());
}

#[test]
fn teardown_clears_session_and_fires_hook_once() {
    let mut h = connected_session();
    let c1 = h.get_charac(BleUuid { bits: C1 }).unwrap();
    h.subscribe(c1, CallbackId { token: 1 });
    let prep = h.disconnect_begin();
    assert!(prep.abort_pump);
    assert_eq!(prep.peripheral, Some(BleAddress { bits: ADDR_1 }));
    assert!(h.listeners.is_empty());
    assert!(!h.pump_running);
    let fired = h.disconnect_finish();
    assert!(fired);
    assert!(h.connected.is_none());
    assert!(h.characs.is_empty());
    assert!(h.registry_is_empty());
    // A second teardown finds nothing to do and no hook to fire.
    let prep2 = h.disconnect_begin();
    assert!(!prep2.abort_pump);
    assert!(prep2.peripheral.is_none());
    assert!(!h.disconnect_finish());
}

#[test]
fn peer_disconnect_event_triggers_teardown_others_do_not() {
    let h = connected_session();
    let gone = AdapterEvent::DeviceDisconnected(BleAddress { bits: ADDR_1 });
    assert!(h.handle_event(&gone));
    assert!(!h.handle_event(&AdapterEvent::DeviceDiscovered(BleAddress { bits: ADDR_1 })));
    assert!(!h.handle_event(&AdapterEvent::DeviceConnected(BleAddress { bits: ADDR_1 })));
    assert!(!h.handle_event(&AdapterEvent::Other));
}

#[test]
fn io_after_peer_disconnect_reports_no_device() {
    let mut h = connected_session();
    // The reactor saw the peripheral drop and ran the teardown path.
    assert!(h.handle_event(&AdapterEvent::DeviceDisconnected(BleAddress { bits: ADDR_1 })));
    h.disconnect_begin();
    let fired = h.disconnect_finish();
    assert!(fired);
    // The write path now finds no device and the session stays idle.
    assert!(matches!(h.connected_device(), Err(Error::NoDeviceConnected)));
    assert!(!h.check_connected(false));
    assert!(!h.check_connected(true));
    assert!(matches!(
        h.get_charac(BleUuid { bits: C1 }),
        Err(Error::CharacNotAvailable(_))
    ));
}

#[test]
fn connected_device_reports_the_session_peripheral() {
    let h = connected_session();
    assert_eq!(h.connected_device().unwrap(), BleAddress { bits: ADDR_1 });
    assert!(h.check_connected(true));
    assert!(!h.check_connected(false));
}

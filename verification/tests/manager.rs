use dualsense_poll::dualsense::{BatteryStatus, ControllerEvent};
use dualsense_poll::polling::{setup_controller_polling, ControllerPollingManager};

/// A full-size report with the given battery status byte and button byte at
/// the USB offsets.
fn usb_report(status_byte: u8, mic_byte: u8) -> Vec<u8> {
    let mut v = vec![0u8; 64];
    v[53] = status_byte;
    v[10] = mic_byte;
    v
}

fn battery_updates(evs: &[ControllerEvent]) -> usize {
    evs.iter().filter(|e| matches!(e, ControllerEvent::BatteryUpdate(..))).count()
}

fn button_presses(evs: &[ControllerEvent]) -> usize {
    evs.iter().filter(|e| matches!(e, ControllerEvent::MuteButtonPressed(..))).count()
}

fn manager_with_usb_device(path: &str) -> ControllerPollingManager {
    let mut m = ControllerPollingManager::new();
    let ev = m.connect_session(path.to_string(), false);
    assert_eq!(ev, ControllerEvent::DeviceConnected(path.to_string()));
    m
}

#[test]
fn button_edges_counted_once_per_press() {
    let p = "dev0".to_string();
    let mut m = manager_with_usb_device(&p);
    let mut presses = 0;
    // Pressed-state sequence with two rising edges.
    for pressed in [false, true, true, false, true] {
        let report = usb_report(0x00, if pressed { 0x04 } else { 0x00 });
        let evs = m.handle_report(&p, &report, 0);
        presses += button_presses(&evs);
    }
    assert_eq!(presses, 2);
}

#[test]
fn battery_reads_throttled_inside_window() {
    let p = "dev0".to_string();
    let mut m = manager_with_usb_device(&p);
    // First read samples immediately and emits.
    let evs = m.handle_report(&p, &usb_report(0x05, 0x00), 0);
    assert_eq!(battery_updates(&evs), 1);
    // Differing bytes inside the ten-second window: no further update.
    let evs = m.handle_report(&p, &usb_report(0x09, 0x00), 9_999);
    assert_eq!(battery_updates(&evs), 0);
    // Changed value once the window has elapsed: a second update.
    let evs = m.handle_report(&p, &usb_report(0x09, 0x00), 10_000);
    assert_eq!(battery_updates(&evs), 1);
}

#[test]
fn identical_readings_deduplicated() {
    let p = "dev0".to_string();
    let mut m = manager_with_usb_device(&p);
    let evs = m.handle_report(&p, &usb_report(0x05, 0x00), 0);
    assert_eq!(battery_updates(&evs), 1);
    // Well past the window, but the decoded reading is identical.
    let evs = m.handle_report(&p, &usb_report(0x05, 0x00), 60_000);
    assert_eq!(battery_updates(&evs), 0);
}

#[test]
fn reconcile_disconnect_is_idempotent() {
    let p = "dev0".to_string();
    let mut m = manager_with_usb_device(&p);
    let evs = m.reconcile_removed(&vec![]);
    assert_eq!(evs, vec![ControllerEvent::DeviceDisconnected(p.clone())]);
    let evs = m.reconcile_removed(&vec![]);
    assert!(evs.is_empty());
}

#[test]
fn reconcile_keeps_observed_sessions() {
    let p0 = "dev0".to_string();
    let p1 = "dev1".to_string();
    let mut m = ControllerPollingManager::new();
    m.connect_session(p0.clone(), false);
    m.connect_session(p1.clone(), true);
    // Only dev1 is still on the bus.
    let evs = m.reconcile_removed(&vec![p1.clone()]);
    assert_eq!(evs, vec![ControllerEvent::DeviceDisconnected(p0.clone())]);
    assert_eq!(m.tracked_paths(), vec![p1.clone()]);
    assert!(!m.is_tracked(&p0));
    assert!(m.is_tracked(&p1));
}

#[test]
fn paths_to_open_skips_tracked_devices() {
    let p0 = "dev0".to_string();
    let p1 = "dev1".to_string();
    let m = manager_with_usb_device(&p0);
    let observed = vec![p0.clone(), p1.clone()];
    assert_eq!(m.paths_to_open(&observed), vec![p1.clone()]);
}

#[test]
fn scan_timing_first_immediate_then_throttled() {
    let mut m = setup_controller_polling();
    assert!(m.begin_scan(0));
    assert!(!m.begin_scan(2_999));
    assert!(m.begin_scan(3_000));
    assert!(!m.begin_scan(5_500));
    assert!(m.begin_scan(6_000));
}

#[test]
fn failed_read_disconnects_once() {
    let p = "dev0".to_string();
    let mut m = manager_with_usb_device(&p);
    let ev = m.disconnect_failed(&p);
    assert_eq!(ev, Some(ControllerEvent::DeviceDisconnected(p.clone())));
    assert_eq!(m.disconnect_failed(&p), None);
    assert!(m.tracked_paths().is_empty());
}

#[test]
fn full_session_lifecycle() {
    let p = "dev0".to_string();
    let mut m = setup_controller_polling();

    // A fresh manager scanning an empty bus: no events, nothing to open.
    assert!(m.begin_scan(0));
    assert!(m.reconcile_removed(&vec![]).is_empty());
    assert!(m.paths_to_open(&vec![]).is_empty());

    // The device appears: the next due scan opens it and emits one connect.
    let observed = vec![p.clone()];
    assert!(m.begin_scan(3_000));
    assert!(m.reconcile_removed(&observed).is_empty());
    assert_eq!(m.paths_to_open(&observed), vec![p.clone()]);
    let ev = m.connect_session(p.clone(), false);
    assert_eq!(ev, ControllerEvent::DeviceConnected(p.clone()));

    // Ten polls that yield no report: no events.
    for _ in 0..10 {
        assert!(m.handle_report(&p, &[], 3_100).is_empty());
    }

    // A successful read with a battery level: exactly one battery update.
    let evs = m.handle_report(&p, &usb_report(0x04, 0x00), 4_000);
    assert_eq!(evs.len(), 1);
    match &evs[0] {
        ControllerEvent::BatteryUpdate(path, report) => {
            assert_eq!(path, &p);
            assert_eq!(report.battery_capacity, 45);
            assert_eq!(report.status, BatteryStatus::Discharging);
        },
        other => panic!("unexpected event {:?}", other),
    }

    // The device is yanked and the next read errors: one disconnect, and the
    // path is gone from every later scan.
    let ev = m.disconnect_failed(&p);
    assert_eq!(ev, Some(ControllerEvent::DeviceDisconnected(p.clone())));
    assert!(m.tracked_paths().is_empty());
    assert!(m.begin_scan(6_000));
    assert!(m.reconcile_removed(&vec![]).is_empty());
    assert!(!m.is_tracked(&p));
}

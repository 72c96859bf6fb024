use pwrusb::acquisition::{handle_read, ReadOutcome};
use pwrusb::endpoint::{
    resolve_endpoint, transfer_supported, EndpointBinding, EndpointDirection, EndpointInfo,
    TransferKind,
};
use pwrusb::locator::{compose_device_name, str_contains, trim_trailing_nulls, DeviceIdentity};
use pwrusb::report::{parse_report, Report};
use pwrusb::state::DaemonState;

fn report_buf(bytes: &[u8]) -> Vec<u8> {
    let mut v = vec![0u8; 64];
    v[..bytes.len()].copy_from_slice(bytes);
    v
}

#[test]
fn battery_report_sets_only_battery_capacity() {
    let buf = report_buf(&[8, 77]);
    let r = parse_report(&buf, 2);
    assert_eq!(r, Report::BatteryCapacity(77));

    let mut state = DaemonState::new();
    state.output_wattage = 900;
    state.apply_report(r);
    assert_eq!(state.battery_capacity, 77);
    assert_eq!(state.output_wattage, 900);
    assert_eq!(state.output_va, 0);
    assert_eq!(state.uptime, 0);
    assert_eq!(state.status, "starting");
    assert_eq!(state.vendor_id, 0);
    assert_eq!(state.product_id, 0);
    assert_eq!(state.device_name, "");
}

#[test]
fn wattage_report_is_little_endian() {
    let buf = report_buf(&[25, 100, 0]);
    let r = parse_report(&buf, 3);
    assert_eq!(r, Report::OutputWattage(100));

    let mut state = DaemonState::new();
    state.apply_report(r);
    assert_eq!(state.output_wattage, 100);
    assert_eq!(state.battery_capacity, 0);
    assert_eq!(state.output_va, 0);
}

#[test]
fn va_report_is_little_endian() {
    let buf = report_buf(&[29, 44, 1]);
    let r = parse_report(&buf, 3);
    assert_eq!(r, Report::OutputVa(300));

    let mut state = DaemonState::new();
    state.apply_report(r);
    assert_eq!(state.output_va, 300);
    assert_eq!(state.output_wattage, 0);
    assert_eq!(state.battery_capacity, 0);
}

#[test]
fn two_byte_maximum_value() {
    let buf = report_buf(&[25, 255, 255]);
    let r = parse_report(&buf, 3);
    assert_eq!(r, Report::OutputWattage(65535));
}

#[test]
fn observed_tag_changes_nothing() {
    let buf = report_buf(&[11, 42, 42]);
    let r = parse_report(&buf, 3);
    assert_eq!(r, Report::Observed);

    let mut state = DaemonState::new();
    state.battery_capacity = 55;
    state.apply_report(r);
    assert_eq!(state.battery_capacity, 55);
    assert_eq!(state.output_wattage, 0);
    assert_eq!(state.output_va, 0);
}

#[test]
fn unrecognized_tag_changes_nothing() {
    let buf = report_buf(&[7, 1, 2]);
    let r = parse_report(&buf, 3);
    assert_eq!(r, Report::Unrecognized(7));

    let mut state = DaemonState::new();
    state.battery_capacity = 55;
    state.output_wattage = 120;
    state.output_va = 130;
    state.apply_report(r);
    assert_eq!(state.battery_capacity, 55);
    assert_eq!(state.output_wattage, 120);
    assert_eq!(state.output_va, 130);
}

#[test]
fn decoding_twice_equals_decoding_once() {
    let buf = report_buf(&[8, 64]);
    let r = parse_report(&buf, 2);

    let mut once = DaemonState::new();
    once.apply_report(r);
    let mut twice = DaemonState::new();
    twice.apply_report(r);
    twice.apply_report(r);
    assert_eq!(once.battery_capacity, twice.battery_capacity);
    assert_eq!(once.output_wattage, twice.output_wattage);
    assert_eq!(once.output_va, twice.output_va);
    assert_eq!(once.battery_capacity, 64);
}

#[test]
fn uptime_ticks_by_one_and_never_decreases() {
    let mut state = DaemonState::new();
    assert_eq!(state.uptime, 0);
    let mut last: u64 = 0;
    for _ in 0..5 {
        state.tick_uptime();
        assert_eq!(state.uptime, last + 1);
        assert!(state.uptime >= last);
        last = state.uptime;
    }
    assert_eq!(state.uptime, 5);
    assert_eq!(state.status, "starting");
}

#[test]
fn timeout_mutates_nothing_and_continues() {
    let mut state = DaemonState::new();
    state.battery_capacity = 88;
    let buf = report_buf(&[]);
    let cont = handle_read(&mut state, ReadOutcome::Timeout, &buf);
    assert!(cont);
    assert_eq!(state.battery_capacity, 88);
    assert_eq!(state.output_wattage, 0);
    assert_eq!(state.output_va, 0);
    assert_eq!(state.uptime, 0);
}

#[test]
fn empty_read_mutates_nothing_and_continues() {
    let mut state = DaemonState::new();
    state.output_va = 250;
    let buf = report_buf(&[]);
    let cont = handle_read(&mut state, ReadOutcome::Data(0), &buf);
    assert!(cont);
    assert_eq!(state.output_va, 250);
}

#[test]
fn read_failure_stops_loop_and_keeps_last_values() {
    let mut state = DaemonState::new();
    let buf = report_buf(&[8, 42]);
    assert!(handle_read(&mut state, ReadOutcome::Data(2), &buf));
    assert_eq!(state.battery_capacity, 42);

    let cont = handle_read(&mut state, ReadOutcome::Failed, &buf);
    assert!(!cont);
    // The record is frozen at its last values and stays readable.
    let snap = state.snapshot();
    assert_eq!(snap.battery_capacity, 42);
    // The ticker is independent of the stopped loop and keeps running.
    state.tick_uptime();
    assert_eq!(state.uptime, 1);
    assert_eq!(state.battery_capacity, 42);
}

#[test]
fn trim_removes_all_trailing_nulls() {
    assert_eq!(trim_trailing_nulls("CyberPower CPS-UPS\0\0\0"), "CyberPower CPS-UPS");
    assert_eq!(trim_trailing_nulls("abc\0"), "abc");
    assert_eq!(trim_trailing_nulls("abc"), "abc");
    assert_eq!(trim_trailing_nulls("\0\0"), "");
    assert_eq!(trim_trailing_nulls(""), "");
    // Interior nulls are not trailing and stay.
    assert_eq!(trim_trailing_nulls("a\0b\0"), "a\0b");
}

#[test]
fn composed_name_joins_with_one_space() {
    let name = compose_device_name(
        &Some(String::from("CyberPower")),
        &Some(String::from("CPS-UPS")),
    );
    assert_eq!(name, "CyberPower CPS-UPS");
}

#[test]
fn unreadable_descriptor_strings_fall_back_to_placeholder() {
    assert_eq!(compose_device_name(&None, &Some(String::from("CPS-UPS"))), "<unknown> CPS-UPS");
    assert_eq!(compose_device_name(&Some(String::from("CyberPower")), &None), "CyberPower <unknown>");
    assert_eq!(compose_device_name(&None, &None), "<unknown> <unknown>");
}

#[test]
fn ups_match_needs_the_vendor_marker() {
    assert!(str_contains("CyberPower CPS-UPS", "CPS"));
    assert!(!str_contains("Acme Keyboard", "CPS"));
    assert!(!str_contains("CP S", "CPS"));
    assert!(str_contains("anything", ""));

    let ups = DeviceIdentity {
        vendor_id: 0x0764,
        product_id: 0x0501,
        name: String::from("CyberPower CPS-UPS"),
    };
    assert!(ups.is_ups());
    let other = DeviceIdentity { vendor_id: 1, product_id: 2, name: String::from("<unknown> <unknown>") };
    assert!(!other.is_ups());
}

#[test]
fn last_inbound_endpoint_wins() {
    let endpoints = vec![
        EndpointInfo { address: 0x01, direction: EndpointDirection::Out, transfer: TransferKind::Bulk },
        EndpointInfo { address: 0x81, direction: EndpointDirection::In, transfer: TransferKind::Interrupt },
        EndpointInfo { address: 0x82, direction: EndpointDirection::In, transfer: TransferKind::Bulk },
        EndpointInfo { address: 0x02, direction: EndpointDirection::Out, transfer: TransferKind::Interrupt },
    ];
    let binding = resolve_endpoint(&endpoints);
    assert_eq!(binding, Some(EndpointBinding { address: 0x82, transfer: TransferKind::Bulk }));
}

#[test]
fn no_inbound_endpoint_resolves_to_none() {
    assert_eq!(resolve_endpoint(&Vec::new()), None);
    let endpoints = vec![
        EndpointInfo { address: 0x01, direction: EndpointDirection::Out, transfer: TransferKind::Bulk },
        EndpointInfo { address: 0x02, direction: EndpointDirection::Out, transfer: TransferKind::Interrupt },
    ];
    assert_eq!(resolve_endpoint(&endpoints), None);
}

#[test]
fn only_bulk_and_interrupt_reads_are_supported() {
    assert!(transfer_supported(TransferKind::Bulk));
    assert!(transfer_supported(TransferKind::Interrupt));
    assert!(!transfer_supported(TransferKind::Control));
    assert!(!transfer_supported(TransferKind::Isochronous));
}

#[test]
fn end_to_end_single_device_scenario() {
    // One enumerated device composes to the UPS name and is matched.
    let name = compose_device_name(
        &Some(String::from("CyberPower")),
        &Some(String::from("CPS-UPS")),
    );
    let identity = DeviceIdentity { vendor_id: 0x0764, product_id: 0x0501, name };
    assert!(identity.is_ups());

    let mut state = DaemonState::new();
    state.record_device_match(identity.vendor_id, identity.product_id, identity.name.as_str());

    // Three reports arrive in order.
    for bytes in [&[8u8, 77][..], &[25, 150, 0][..], &[29, 9, 1][..]] {
        let buf = report_buf(bytes);
        let cont = handle_read(&mut state, ReadOutcome::Data(bytes.len()), &buf);
        assert!(cont);
    }

    let snap = state.snapshot();
    assert_eq!(snap.battery_capacity, 77);
    assert_eq!(snap.output_wattage, 150);
    assert_eq!(snap.output_va, 265);
    assert_eq!(snap.status, "running");
    assert_eq!(snap.device_name, "CyberPower CPS-UPS");
    assert_eq!(snap.vendor_id, 0x0764);
    assert_eq!(snap.product_id, 0x0501);
}

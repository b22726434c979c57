use action_center::settings::{
    parse_bluetooth_label, parse_bluetooth_status, parse_radio_status, parse_wifi_label,
    PollTimer, QuickSettings, QuickSettingsState, POLL_INTERVAL_MS,
};
use action_center::theme::Colors;

fn fresh() -> QuickSettings {
    QuickSettings::new(Colors::default())
}

#[test]
fn radio_status_is_compared_verbatim() {
    assert!(parse_radio_status("enabled\n"));
    assert!(parse_radio_status("enabled"));
    assert!(parse_radio_status("  enabled  "));
    assert!(!parse_radio_status("disabled\n"));
    assert!(!parse_radio_status("enabled extras\n"));
    assert!(!parse_radio_status(""));
}

#[test]
fn radio_output_drives_the_wifi_record() {
    let mut qs = fresh();
    qs.update_wifi_state(Some("enabled\n"), Some("MyWifi:wlan0\n"));
    assert!(qs.state.wifi_enabled);
    assert_eq!(qs.state.wifi_network_name, "MyWifi");
    // Disabling resets the label to empty.
    qs.update_wifi_state(Some("disabled\n"), None);
    assert!(!qs.state.wifi_enabled);
    assert_eq!(qs.state.wifi_network_name, "");
}

#[test]
fn first_wireless_connection_supplies_the_label() {
    assert_eq!(parse_wifi_label("MyWifi:wlan0\nEth0:eth0\n"), "MyWifi");
    // Wired lines are passed over; the first wireless one wins.
    assert_eq!(parse_wifi_label("Eth0:eth0\nMyWifi:wlan0\nOther:wlp3s0\n"), "MyWifi");
    // No wireless device at all: no label.
    assert_eq!(parse_wifi_label("Eth0:eth0\n"), "");
    assert_eq!(parse_wifi_label("no colon here\n"), "");
    assert_eq!(parse_wifi_label(""), "");
}

#[test]
fn failed_queries_leave_the_record_stale() {
    let mut qs = fresh();
    qs.update_wifi_state(Some("enabled\n"), Some("MyWifi:wlan0\n"));
    // The radio invocation failed: everything stays.
    qs.update_wifi_state(None, None);
    assert!(qs.state.wifi_enabled);
    assert_eq!(qs.state.wifi_network_name, "MyWifi");
    // The connection listing failed: the old label stays.
    qs.update_wifi_state(Some("enabled\n"), None);
    assert_eq!(qs.state.wifi_network_name, "MyWifi");
}

#[test]
fn bluetooth_status_is_scanned_for_powered_yes() {
    assert!(parse_bluetooth_status("Controller AA:BB\n\tPowered: yes\n"));
    assert!(!parse_bluetooth_status("Controller AA:BB\n\tPowered: no\n"));
    assert!(!parse_bluetooth_status(""));
}

#[test]
fn connected_device_supplies_the_bluetooth_label() {
    let mut qs = fresh();
    qs.update_bluetooth_state(
        Some("Controller AA:BB\n\tPowered: yes\n"),
        Some("Device AA:BB:CC:DD:EE:FF My Headphones\n"),
    );
    assert!(qs.state.bluetooth_enabled);
    assert_eq!(qs.state.bluetooth_device_name, "My Headphones");
}

#[test]
fn device_listing_edge_cases() {
    // The name keeps every blank-separated field after the address.
    assert_eq!(parse_bluetooth_label("Device AA:BB:CC:DD:EE:FF My Headphones\n"), "My Headphones");
    // A line with no name field is passed over.
    assert_eq!(parse_bluetooth_label("Device AA:BB:CC:DD:EE:FF\n"), "");
    // Lines that do not start with the token are passed over.
    assert_eq!(parse_bluetooth_label("Controller 00:11 Hub\n"), "");
    assert_eq!(parse_bluetooth_label(""), "");
    // The first device line wins.
    assert_eq!(parse_bluetooth_label("Device 00:11 First\nDevice 22:33 Second\n"), "First");
}

#[test]
fn early_poll_is_a_no_op() {
    let mut qs = fresh();
    qs.poll_wifi(1000, Some("enabled\n"), Some("MyWifi:wlan0\n"));
    assert!(qs.state.wifi_enabled);
    assert_eq!(qs.wifi_timer.last_poll_ms, Some(1000));
    // Within the interval the poll changes neither state nor timer.
    qs.poll_wifi(1000 + POLL_INTERVAL_MS - 1, Some("disabled\n"), None);
    assert!(qs.state.wifi_enabled);
    assert_eq!(qs.state.wifi_network_name, "MyWifi");
    assert_eq!(qs.wifi_timer.last_poll_ms, Some(1000));
    // Once the interval has elapsed the poll applies and restarts it.
    qs.poll_wifi(1000 + POLL_INTERVAL_MS, Some("disabled\n"), None);
    assert!(!qs.state.wifi_enabled);
    assert_eq!(qs.state.wifi_network_name, "");
    assert_eq!(qs.wifi_timer.last_poll_ms, Some(1000 + POLL_INTERVAL_MS));
}

#[test]
fn early_bluetooth_poll_is_a_no_op() {
    let mut qs = fresh();
    qs.poll_bluetooth(500, Some("Powered: yes\n"), Some("Device 00:11 Speaker\n"));
    assert!(qs.state.bluetooth_enabled);
    assert_eq!(qs.bluetooth_timer.last_poll_ms, Some(500));
    qs.poll_bluetooth(500 + POLL_INTERVAL_MS - 1, Some("Powered: no\n"), None);
    assert!(qs.state.bluetooth_enabled);
    assert_eq!(qs.state.bluetooth_device_name, "Speaker");
    assert_eq!(qs.bluetooth_timer.last_poll_ms, Some(500));
}

#[test]
fn toggle_refresh_bypasses_the_poll_timer() {
    let mut qs = fresh();
    qs.poll_wifi(1000, Some("enabled\n"), Some("MyWifi:wlan0\n"));
    assert!(qs.state.wifi_enabled);
    // The user toggles: the target is the opposite of what is shown, and
    // the read-after-write refresh lands well before the next poll is due.
    assert!(!qs.wifi_toggle_target());
    qs.update_wifi_state(Some("disabled\n"), None);
    assert!(!qs.state.wifi_enabled);
    assert_eq!(qs.state.wifi_network_name, "");
    // The poll timer did not move.
    assert_eq!(qs.wifi_timer.last_poll_ms, Some(1000));
}

#[test]
fn toggle_targets_oppose_current_state() {
    let mut qs = fresh();
    assert!(qs.wifi_toggle_target());
    assert!(qs.bluetooth_toggle_target());
    qs.update_wifi_state(Some("enabled\n"), None);
    assert!(!qs.wifi_toggle_target());
    qs.update_bluetooth_state(Some("Powered: yes\n"), None);
    assert!(!qs.bluetooth_toggle_target());
}

#[test]
fn poll_timer_honours_the_interval() {
    let timer = PollTimer::new();
    assert!(timer.due(0));
    let timer = PollTimer { last_poll_ms: Some(1000) };
    assert!(!timer.due(1000));
    assert!(!timer.due(1000 + POLL_INTERVAL_MS - 1));
    assert!(timer.due(1000 + POLL_INTERVAL_MS));
    // A clock that somehow reads earlier than the last poll fires nothing.
    assert!(!timer.due(0));
}

#[test]
fn state_accessors_expose_the_records() {
    let mut qs = fresh();
    assert!(!qs.state().network_enabled);
    {
        let st: &mut QuickSettingsState = qs.state_mut();
        st.network_enabled = true;
        st.airplane_enabled = true;
    }
    assert!(qs.state().network_enabled);
    assert!(qs.state().airplane_enabled);
}

#[test]
fn fresh_state_is_all_off() {
    let qs = fresh();
    assert!(!qs.state.wifi_enabled);
    assert!(!qs.state.network_enabled);
    assert!(!qs.state.bluetooth_enabled);
    assert!(!qs.state.airplane_enabled);
    assert_eq!(qs.state.wifi_network_name, "");
    assert_eq!(qs.state.bluetooth_device_name, "");
    assert_eq!(qs.wifi_timer.last_poll_ms, None);
    assert_eq!(qs.bluetooth_timer.last_poll_ms, None);
}

#[test]
fn update_colors_swaps_the_theme() {
    let mut qs = fresh();
    let mut theme = Colors::default();
    theme.primary = action_center::theme::Rgba::opaque(1, 2, 3);
    qs.update_colors(theme);
    assert_eq!(qs.colors.primary.red, 1);
    assert_eq!(qs.colors.primary.green, 2);
    assert_eq!(qs.colors.primary.blue, 3);
}

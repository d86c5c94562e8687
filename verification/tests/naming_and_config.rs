use dash2::channel::SignalSlot;
use dash2::election::primary_monitor_index;
use dash2::config::{config_candidates, ConfigValues, Session};
use dash2::power::dbus_error_is_benign;
use dash2::naming::{get_output_window_label, rand_string, resolve_name, u32_to_decimal};

#[test]
fn decimal_rendering() {
    assert_eq!(u32_to_decimal(0), "0");
    assert_eq!(u32_to_decimal(7), "7");
    assert_eq!(u32_to_decimal(42), "42");
    assert_eq!(u32_to_decimal(1234567890), "1234567890");
    assert_eq!(u32_to_decimal(u32::MAX), "4294967295");
}

#[test]
fn name_resolution_ladder() {
    assert_eq!(resolve_name(Some(String::from("eDP-1")), Some(3)), "eDP-1");
    assert_eq!(resolve_name(None, Some(407)), "407");
    let token = resolve_name(None, None);
    assert_eq!(token.chars().count(), 32);
    assert!(token.chars().all(|c| c.is_ascii_alphanumeric()));
}

#[test]
fn random_tokens_are_alphanumeric() {
    let a = rand_string();
    let b = rand_string();
    assert_eq!(a.chars().count(), 32);
    assert_eq!(b.chars().count(), 32);
    assert!(a.chars().all(|c| c.is_ascii_alphanumeric()));
    assert!(b.chars().all(|c| c.is_ascii_alphanumeric()));
}

#[test]
fn window_labels_are_sanitized() {
    assert_eq!(get_output_window_label("wl_output@34"), "lock-wloutput34");
    assert_eq!(get_output_window_label("abc123"), "lock-abc123");
    assert_eq!(get_output_window_label("!@#$%"), "lock-");
    assert_eq!(get_output_window_label(""), "lock-");
}

#[test]
fn config_search_order() {
    assert_eq!(
        config_candidates(Some(String::from("/tmp/own.toml")), Some(String::from("/home/u/.config"))),
        vec![String::from("/tmp/own.toml")]
    );
    assert_eq!(
        config_candidates(None, Some(String::from("/home/u/.config"))),
        vec![
            String::from("/home/u/.config/dash2/config.toml"),
            String::from("/etc/dash2/config.toml"),
        ]
    );
    assert_eq!(config_candidates(None, None), vec![String::from("/etc/dash2/config.toml")]);
}

#[test]
fn default_config_is_empty() {
    let c = ConfigValues::default();
    assert_eq!(c.user, "");
    assert!(c.primary_display.is_empty());
    let s = Session::default();
    assert!(s.cmd.is_empty());
    assert!(s.env.is_empty());
}

#[test]
fn signal_slot_is_single_shot_and_idempotent() {
    let mut slot = SignalSlot::new();
    assert!(!slot.pending);
    assert!(!slot.take());
    slot.signal();
    slot.signal();
    assert!(slot.pending);
    assert!(slot.take());
    assert!(!slot.take());
}

#[test]
fn monitor_index_prefers_priority_entries() {
    let names: Vec<String> =
        vec!["eDP-1".into(), "DP-2".into(), "HDMI-1".into()];
    assert_eq!(primary_monitor_index(&names, &vec!["DP-2".into()]), 1);
    assert_eq!(primary_monitor_index(&names, &vec!["DP-9".into(), "HDMI-1".into()]), 2);
    assert_eq!(primary_monitor_index(&names, &vec!["DP-9".into()]), 0);
    assert_eq!(primary_monitor_index(&names, &vec![]), 0);
    assert_eq!(primary_monitor_index(&vec![], &vec!["DP-2".into()]), 0);
}

#[test]
fn cancelled_power_replies_are_benign() {
    assert!(dbus_error_is_benign(
        "org.gtk.GDBus.UnmappedGError.Quark._g_2dio_2derror_2dquark.Code19"
    ));
    assert!(!dbus_error_is_benign(
        "org.gtk.GDBus.UnmappedGError.Quark._g_2dio_2derror_2dquark.Code1"
    ));
    assert!(!dbus_error_is_benign("org.freedesktop.DBus.Error.AccessDenied.Code19"));
    assert!(!dbus_error_is_benign(""));
}

use dwmstatus::config::AppConfig;
use dwmstatus::network::{NetInterface, NetworkStatus};
use dwmstatus::render::{
    battery_to_string, render, temperature_to_string, time_to_string, uptime_to_string,
};
use dwmstatus::snapshot::{
    collect, BatteryReading, MetricsSnapshot, PlatformInputs, TempReading, TimeParts,
};

fn sample_time() -> TimeParts {
    TimeParts { weekday: 0, month: 10, day: 12, hour: 14, minute: 30 }
}

fn full_snapshot() -> MetricsSnapshot {
    MetricsSnapshot {
        network: NetworkStatus::Wireless,
        memory_used_bytes: 500,
        memory_text: "500 B".to_string(),
        cpu_temperature: Some(TempReading { raw: 45000, denominator: 1000 }),
        battery: Some(BatteryReading { charge: 85, on_ac: true }),
        uptime_seconds: Some(445500),
        time: sample_time(),
    }
}

#[test]
fn temperature_renders_one_decimal_celsius() {
    let t = TempReading { raw: 45000, denominator: 1000 };
    assert_eq!(temperature_to_string(&t), "45.0\u{00B0}C");
}

#[test]
fn temperature_keeps_the_scaled_tenth() {
    let t = TempReading { raw: 45500, denominator: 1000 };
    assert_eq!(temperature_to_string(&t), "45.5\u{00B0}C");
    let t = TempReading { raw: 45999, denominator: 1000 };
    assert_eq!(temperature_to_string(&t), "45.9\u{00B0}C");
    let t = TempReading { raw: 37, denominator: 1 };
    assert_eq!(temperature_to_string(&t), "37.0\u{00B0}C");
}

#[test]
fn battery_marks_external_power() {
    assert_eq!(
        battery_to_string(&BatteryReading { charge: 85, on_ac: true }),
        "[85%+]"
    );
    assert_eq!(
        battery_to_string(&BatteryReading { charge: 7, on_ac: false }),
        "[7%]"
    );
}

#[test]
fn uptime_renders_zero_padded_hours_and_minutes() {
    assert_eq!(uptime_to_string(0), "00:00");
    assert_eq!(uptime_to_string(3600), "01:00");
    assert_eq!(uptime_to_string(3659), "01:00");
    assert_eq!(uptime_to_string(3660), "01:01");
    assert_eq!(uptime_to_string(445500), "123:45");
}

#[test]
fn time_renders_fixed_human_form() {
    assert_eq!(time_to_string(&sample_time()), "Sun 10/12  14:30");
    let t = TimeParts { weekday: 6, month: 1, day: 2, hour: 3, minute: 4 };
    assert_eq!(time_to_string(&t), "Sat 01/02  03:04");
}

#[test]
fn full_line_holds_every_segment_in_order() {
    let line = render(&full_snapshot());
    assert_eq!(
        line,
        "(---) \u{2502} 500 B \u{2502} 45.0\u{00B0}C \u{2502} [85%+] \u{2502} 123:45 \u{2502} Sun 10/12  14:30 "
    );
}

#[test]
fn absent_battery_omits_only_its_segment() {
    let mut snap = full_snapshot();
    snap.battery = None;
    let line = render(&snap);
    assert_eq!(
        line,
        "(---) \u{2502} 500 B \u{2502} 45.0\u{00B0}C \u{2502} 123:45 \u{2502} Sun 10/12  14:30 "
    );
}

#[test]
fn absent_temperature_omits_only_its_segment() {
    let mut snap = full_snapshot();
    snap.cpu_temperature = None;
    let line = render(&snap);
    assert_eq!(
        line,
        "(---) \u{2502} 500 B \u{2502} [85%+] \u{2502} 123:45 \u{2502} Sun 10/12  14:30 "
    );
}

#[test]
fn absent_optional_metrics_leave_the_always_present_segments() {
    let mut snap = full_snapshot();
    snap.cpu_temperature = None;
    snap.battery = None;
    snap.uptime_seconds = None;
    let line = render(&snap);
    assert_eq!(line, "(---) \u{2502} 500 B \u{2502} ");
}

#[test]
fn unchanged_sources_differ_only_in_the_clock_tail() {
    let first = full_snapshot();
    let mut second = full_snapshot();
    second.uptime_seconds = Some(445560);
    second.time = TimeParts { weekday: 0, month: 10, day: 12, hour: 14, minute: 31 };
    let prefix = "(---) \u{2502} 500 B \u{2502} 45.0\u{00B0}C \u{2502} [85%+] \u{2502} ";
    let line1 = render(&first);
    let line2 = render(&second);
    assert!(line1.starts_with(prefix));
    assert!(line2.starts_with(prefix));
    assert_eq!(&line1[..prefix.len()], &line2[..prefix.len()]);
    assert_ne!(line1, line2);
}

fn wired_inputs() -> PlatformInputs {
    PlatformInputs {
        interfaces: vec![NetInterface { name: "enp3s0".to_string(), has_address: true }],
        memory_total_bytes: 1000,
        memory_free_bytes: 500,
        uptime_seconds: Some(3600),
        cpu_temperature_text: Some("45000\n".to_string()),
        battery_charge_text: Some("85\n".to_string()),
        battery_status_text: Some("1\n".to_string()),
    }
}

fn full_config() -> AppConfig {
    AppConfig::default()
}

#[test]
fn collect_parses_configured_sources() {
    let snap = collect(&full_config(), wired_inputs());
    assert_eq!(snap.network, NetworkStatus::Ethernet);
    assert_eq!(snap.memory_used_bytes, 500);
    assert_eq!(snap.memory_text, "500 B");
    let temp = snap.cpu_temperature.expect("temperature source parses");
    assert_eq!(temp.raw, 45000);
    assert_eq!(temp.denominator, 1000);
    let battery = snap.battery.expect("charge source parses");
    assert_eq!(battery.charge, 85);
    assert!(battery.on_ac);
    assert_eq!(snap.uptime_seconds, Some(3600));
}

#[test]
fn collected_temperature_renders_as_expected() {
    let snap = collect(&full_config(), wired_inputs());
    let line = render(&snap);
    assert!(line.contains("45.0\u{00B0}C \u{2502} "));
}

#[test]
fn missing_charge_text_omits_battery_but_keeps_the_rest() {
    let mut inputs = wired_inputs();
    inputs.battery_charge_text = None;
    let snap = collect(&full_config(), inputs);
    assert!(snap.battery.is_none());
    let line = render(&snap);
    assert!(line.starts_with("]---[ \u{2502} 500 B \u{2502} 45.0\u{00B0}C \u{2502} 01:00 \u{2502} "));
    assert!(!line.contains('%'));
}

#[test]
fn malformed_charge_text_omits_battery_only() {
    let mut inputs = wired_inputs();
    inputs.battery_charge_text = Some("garbage".to_string());
    let snap = collect(&full_config(), inputs);
    assert!(snap.battery.is_none());
    assert!(snap.cpu_temperature.is_some());
}

#[test]
fn failed_ac_indicator_means_not_on_ac() {
    let mut inputs = wired_inputs();
    inputs.battery_status_text = None;
    let snap = collect(&full_config(), inputs);
    let battery = snap.battery.expect("charge still parses");
    assert!(!battery.on_ac);
    let mut inputs = wired_inputs();
    inputs.battery_status_text = Some("0\n".to_string());
    let snap = collect(&full_config(), inputs);
    assert!(!snap.battery.expect("charge still parses").on_ac);
}

#[test]
fn unconfigured_sources_stay_absent() {
    let config = AppConfig::load(Some(""));
    let snap = collect(&config, wired_inputs());
    assert!(snap.cpu_temperature.is_none());
    assert!(snap.battery.is_none());
}

#[test]
fn default_denominator_applies_when_unset() {
    let config = AppConfig::load(Some("[cpu]\ntemperature_file = \"/t\"\n"));
    let snap = collect(&config, wired_inputs());
    assert_eq!(snap.cpu_temperature.expect("source parses").denominator, 1000);
}

#[test]
fn memory_subtraction_saturates() {
    let mut inputs = wired_inputs();
    inputs.memory_total_bytes = 100;
    inputs.memory_free_bytes = 400;
    let snap = collect(&full_config(), inputs);
    assert_eq!(snap.memory_used_bytes, 0);
    assert_eq!(snap.memory_text, "0 B");
}

#[test]
fn larger_memory_figures_carry_a_scaled_unit() {
    let mut inputs = wired_inputs();
    inputs.memory_total_bytes = 3_000_000;
    inputs.memory_free_bytes = 500_000;
    let snap = collect(&full_config(), inputs);
    assert_eq!(snap.memory_used_bytes, 2_500_000);
    assert_eq!(snap.memory_text, "2.5 MB");
}

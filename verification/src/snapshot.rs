//! Metric collection: one ephemeral snapshot per tick, built from the
//! configuration and the plain values the platform supplied. Each
//! metric is isolated — a missing or malformed source yields absence
//! of that metric alone and never disturbs the others.

use vstd::prelude::*;
use crate::config::{config_wf, AppConfig, DEFAULT_TEMPERATURE_DENOMINATOR};
use crate::network::{classify, classify_spec, NetInterface, NetworkStatus};
use crate::numtext::{dec_str, parse_metric_spec, parse_metric_text};
use chrono::{Datelike, Timelike};

verus! {

/// The local wall-clock reading of one tick, as plain fields.
pub struct TimeParts {
    /// Days since Sunday, `0 ..= 6`.
    pub weekday: u64,
    /// `1 ..= 12`.
    pub month: u64,
    /// `1 ..= 31`.
    pub day: u64,
    /// `0 ..= 23`.
    pub hour: u64,
    /// `0 ..= 59`.
    pub minute: u64,
}

pub open spec fn time_parts_wf(t: TimeParts) -> bool {
    &&& t.weekday < 7
    &&& 1 <= t.month <= 12
    &&& 1 <= t.day <= 31
    &&& t.hour < 24
    &&& t.minute < 60
}

/// Relies on chrono: `Local::now` for the current local time, read out
/// through the `Datelike` and `Timelike` accessors `weekday` (as days
/// since Sunday), `month`, `day`, `hour` and `minute`. The contract
/// states their documented ranges; of a clock reading nothing more
/// holds of every outcome. `Local::now` itself panics on a system
/// clock set before the Unix epoch — an outside call, outside this
/// library's no-panic promise.
#[verifier::external_body]
pub fn read_local_time() -> (t: TimeParts)
    ensures
        time_parts_wf(t),
{
    let now = chrono::Local::now();
    TimeParts {
        weekday: now.weekday().num_days_from_sunday() as u64,
        month: now.month() as u64,
        day: now.day() as u64,
        hour: now.hour() as u64,
        minute: now.minute() as u64,
    }
}

/// What one tick hands the collector: the interface list, the memory
/// figures, the uptime, and the whole text of each configured metric
/// source file — absent where unconfigured or unreadable this tick.
pub struct PlatformInputs {
    pub interfaces: Vec<NetInterface>,
    pub memory_total_bytes: u64,
    pub memory_free_bytes: u64,
    pub uptime_seconds: Option<u64>,
    pub cpu_temperature_text: Option<String>,
    pub battery_charge_text: Option<String>,
    pub battery_status_text: Option<String>,
}

/// A CPU temperature: the raw sensor reading and the positive
/// denominator that scales it to degrees.
pub struct TempReading {
    pub raw: u64,
    pub denominator: u64,
}

/// A battery reading: the charge figure and whether the AC indicator
/// reports external power.
pub struct BatteryReading {
    pub charge: u64,
    pub on_ac: bool,
}

/// The per-tick snapshot: a present value or an explicit absence for
/// each metric; destroyed after formatting. The memory figure is
/// carried both as the byte count and as the human-scaled text the
/// outside formatter produced for it this tick.
pub struct MetricsSnapshot {
    pub network: NetworkStatus,
    pub memory_used_bytes: u64,
    pub memory_text: String,
    pub cpu_temperature: Option<TempReading>,
    pub battery: Option<BatteryReading>,
    pub uptime_seconds: Option<u64>,
    pub time: TimeParts,
}

pub open spec fn snapshot_wf(s: MetricsSnapshot) -> bool {
    &&& s.cpu_temperature matches Some(t) ==> t.denominator >= 1
    &&& time_parts_wf(s.time)
}

/// Relies on `ByteSize`'s display, re-exported by systemstat: the
/// human-scaled text for a byte count. Below one kilobyte the source
/// renders the plain decimal count, a space and `B`, which the
/// contract pins; at a kilobyte and above the unit choice goes through
/// floating-point logarithms whose precision the standard library
/// leaves unspecified, so of those counts nothing is promised.
#[verifier::external_body]
fn format_bytes(n: u64) -> (r: String)
    ensures
        n < 1000 ==> r@ == dec_str(n as nat) + " B"@,
{
    systemstat::ByteSize::b(n).to_string()
}

/// Memory in use: total less free, saturating at zero.
pub open spec fn memory_used_spec(total: u64, free: u64) -> u64 {
    if total >= free {
        (total - free) as u64
    } else {
        0u64
    }
}

/// The denominator in force: the configured one, or the milli-degree
/// default where the configuration names none.
pub open spec fn denominator_spec(config: AppConfig) -> u64 {
    match config.cpu.temperature_denominator {
        Some(d) => d,
        None => DEFAULT_TEMPERATURE_DENOMINATOR,
    }
}

/// The CPU temperature metric of one tick: present exactly when the
/// source is configured and its text parses as a non-negative integer.
pub open spec fn cpu_temperature_spec(config: AppConfig, text: Option<String>) -> Option<
    TempReading,
> {
    if config.cpu.temperature_file is Some {
        match text {
            Some(s) => match parse_metric_spec(s@) {
                Some(raw) => Some(TempReading { raw, denominator: denominator_spec(config) }),
                None => None,
            },
            None => None,
        }
    } else {
        None
    }
}

/// The AC indicator: external power is reported exactly when a status
/// file is configured and its text parses to the value one. Any
/// failure to read or parse it means "not on AC" and never fails the
/// battery metric itself.
pub open spec fn on_ac_spec(config: AppConfig, status_text: Option<String>) -> bool {
    config.battery.status_file is Some && match status_text {
        Some(s) => parse_metric_spec(s@) == Some(1u64),
        None => false,
    }
}

/// The battery metric of one tick: present exactly when the charge
/// source is configured and its text parses as a non-negative integer.
pub open spec fn battery_spec(
    config: AppConfig,
    charge_text: Option<String>,
    status_text: Option<String>,
) -> Option<BatteryReading> {
    if config.battery.charge_file is Some {
        match charge_text {
            Some(s) => match parse_metric_spec(s@) {
                Some(charge) => Some(
                    BatteryReading { charge, on_ac: on_ac_spec(config, status_text) },
                ),
                None => None,
            },
            None => None,
        }
    } else {
        None
    }
}

/// Collects the snapshot of one tick. Every metric but the clock is a
/// function of the configuration and the inputs alone; the clock is
/// read here and only its ranges are known.
pub fn collect(config: &AppConfig, inputs: PlatformInputs) -> (snap: MetricsSnapshot)
    requires
        config_wf(*config),
    ensures
        snap.network == classify_spec(inputs.interfaces@),
        snap.memory_used_bytes == memory_used_spec(
            inputs.memory_total_bytes,
            inputs.memory_free_bytes,
        ),
        snap.memory_used_bytes < 1000 ==> snap.memory_text@ == dec_str(
            snap.memory_used_bytes as nat,
        ) + " B"@,
        snap.cpu_temperature == cpu_temperature_spec(*config, inputs.cpu_temperature_text),
        snap.battery == battery_spec(
            *config,
            inputs.battery_charge_text,
            inputs.battery_status_text,
        ),
        snap.uptime_seconds == inputs.uptime_seconds,
        snapshot_wf(snap),
{
    let network = classify(&inputs.interfaces);
    let memory_used_bytes = if inputs.memory_total_bytes >= inputs.memory_free_bytes {
        inputs.memory_total_bytes - inputs.memory_free_bytes
    } else {
        0
    };
    let memory_text = format_bytes(memory_used_bytes);
    let cpu_temperature = if config.cpu.temperature_file.is_some() {
        match &inputs.cpu_temperature_text {
            Some(text) => match parse_metric_text(text.as_str()) {
                Some(raw) => {
                    let denominator = match &config.cpu.temperature_denominator {
                        Some(d) => *d,
                        None => DEFAULT_TEMPERATURE_DENOMINATOR,
                    };
                    Some(TempReading { raw, denominator })
                },
                None => None,
            },
            None => None,
        }
    } else {
        None
    };
    let on_ac = config.battery.status_file.is_some() && match &inputs.battery_status_text {
        Some(s) => match parse_metric_text(s.as_str()) {
            Some(v) => v == 1,
            None => false,
        },
        None => false,
    };
    let battery = if config.battery.charge_file.is_some() {
        match &inputs.battery_charge_text {
            Some(text) => match parse_metric_text(text.as_str()) {
                Some(charge) => Some(BatteryReading { charge, on_ac }),
                None => None,
            },
            None => None,
        }
    } else {
        None
    };
    let time = read_local_time();
    MetricsSnapshot {
        network,
        memory_used_bytes,
        memory_text,
        cpu_temperature,
        battery,
        uptime_seconds: inputs.uptime_seconds,
        time,
    }
}

} // verus!

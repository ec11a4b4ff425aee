//! Rendering: one line per tick, a delimiter-separated segment for
//! each metric that is present, in fixed order — network glyph, memory,
//! CPU temperature, battery, uptime and wall-clock time. Absent metrics
//! produce no segment and no placeholder; errors never reach the line.

use vstd::prelude::*;
use vstd::string::StringExecFns;
use crate::network::NetworkStatus;
use crate::numtext::{dec_str, dec_str_pad2, digit_char, digit_to_str, u64_to_padded2_string,
    u64_to_string};
use crate::snapshot::{snapshot_wf, BatteryReading, MetricsSnapshot, TempReading, TimeParts};

verus! {

/// The delimiter that terminates every segment.
pub const SEPARATOR: &'static str = " \u{2502} ";

/// The fixed glyph of each link classification.
pub open spec fn network_glyph(n: NetworkStatus) -> Seq<char> {
    match n {
        NetworkStatus::Wireless => "(---)"@,
        NetworkStatus::Ethernet => "]---["@,
        NetworkStatus::UsbTether => "]~~~["@,
        NetworkStatus::Disconnected => "--/--"@,
    }
}

fn network_glyph_exec(n: NetworkStatus) -> (r: &'static str)
    ensures
        r@ == network_glyph(n),
{
    match n {
        NetworkStatus::Wireless => "(---)",
        NetworkStatus::Ethernet => "]---[",
        NetworkStatus::UsbTether => "]~~~[",
        NetworkStatus::Disconnected => "--/--",
    }
}

/// A temperature as one-decimal degrees Celsius: the integer quotient
/// of the raw reading by the denominator, a decimal point, the next
/// scaled digit, and the degree mark. The tenth is truncated, not
/// rounded — a deliberate choice, kept exact over the integers: float
/// formatting would round 45999 at denominator 1000 up to 46.0 where
/// this renders 45.9.
pub open spec fn temperature_text(t: TempReading) -> Seq<char> {
    let whole = (t.raw as int) / (t.denominator as int);
    let tenth = ((t.raw as int) % (t.denominator as int)) * 10 / (t.denominator as int);
    dec_str(whole as nat) + "."@ + seq![digit_char(tenth)] + "\u{00B0}C"@
}

/// A battery reading: the charge percentage in brackets, with a plus
/// mark appended while on external power.
pub open spec fn battery_text(b: BatteryReading) -> Seq<char> {
    "["@ + dec_str(b.charge as nat) + "%"@ + (if b.on_ac {
        "+"@
    } else {
        Seq::<char>::empty()
    }) + "]"@
}

/// An uptime as zero-padded whole hours and minutes within the hour.
pub open spec fn uptime_text(u: u64) -> Seq<char> {
    dec_str_pad2((u as int / 3600) as nat) + ":"@ + dec_str_pad2(((u as int / 60) % 60) as nat)
}

/// The fixed English abbreviation of a weekday, counted from Sunday.
pub open spec fn weekday_name(w: int) -> Seq<char> {
    if w == 0 {
        "Sun"@
    } else if w == 1 {
        "Mon"@
    } else if w == 2 {
        "Tue"@
    } else if w == 3 {
        "Wed"@
    } else if w == 4 {
        "Thu"@
    } else if w == 5 {
        "Fri"@
    } else {
        "Sat"@
    }
}

/// The wall-clock reading in the fixed human form: abbreviated
/// weekday, zero-padded month/day, two spaces, zero-padded
/// hours:minutes.
pub open spec fn time_text(t: TimeParts) -> Seq<char> {
    weekday_name(t.weekday as int) + " "@ + dec_str_pad2(t.month as nat) + "/"@ + dec_str_pad2(
        t.day as nat,
    ) + "  "@ + dec_str_pad2(t.hour as nat) + ":"@ + dec_str_pad2(t.minute as nat)
}

/// The always-present head of the line: glyph and memory segments.
pub open spec fn glyph_part(s: MetricsSnapshot) -> Seq<char> {
    network_glyph(s.network) + SEPARATOR@
}

pub open spec fn memory_part(s: MetricsSnapshot) -> Seq<char> {
    s.memory_text@ + SEPARATOR@
}

/// The temperature segment, or nothing where the metric is absent.
pub open spec fn temperature_part(s: MetricsSnapshot) -> Seq<char> {
    match s.cpu_temperature {
        Some(t) => temperature_text(t) + SEPARATOR@,
        None => Seq::<char>::empty(),
    }
}

/// The battery segment, or nothing where the metric is absent.
pub open spec fn battery_part(s: MetricsSnapshot) -> Seq<char> {
    match s.battery {
        Some(b) => battery_text(b) + SEPARATOR@,
        None => Seq::<char>::empty(),
    }
}

/// The uptime and wall-clock tail, present only with an uptime figure,
/// ended by a single trailing space.
pub open spec fn clock_part(s: MetricsSnapshot) -> Seq<char> {
    match s.uptime_seconds {
        Some(u) => uptime_text(u) + SEPARATOR@ + time_text(s.time) + " "@,
        None => Seq::<char>::empty(),
    }
}

/// Everything before the clock: identical between ticks whose
/// non-clock metrics are unchanged.
pub open spec fn static_part(s: MetricsSnapshot) -> Seq<char> {
    glyph_part(s) + memory_part(s) + temperature_part(s) + battery_part(s)
}

/// The whole rendered line: exactly the segments of the present
/// metrics, in fixed order.
pub open spec fn line_spec(s: MetricsSnapshot) -> Seq<char> {
    static_part(s) + clock_part(s)
}

/// Renders a temperature reading as one-decimal degrees Celsius.
pub fn temperature_to_string(t: &TempReading) -> (r: String)
    requires
        t.denominator >= 1,
    ensures
        r@ == temperature_text(*t),
{
    let whole: u64 = t.raw / t.denominator;
    let rem: u64 = t.raw % t.denominator;
    let tenth_wide: u128 = (rem as u128) * 10 / (t.denominator as u128);
    proof {
        let r = rem as int;
        let d = t.denominator as int;
        vstd::arithmetic::div_mod::lemma_fundamental_div_mod(r * 10, d);
        vstd::arithmetic::div_mod::lemma_mod_division_less_than_divisor(r * 10, d);
        if (r * 10) / d >= 10 {
            vstd::arithmetic::mul::lemma_mul_inequality(10, (r * 10) / d, d);
            assert(false);
        }
    }
    let tenth: u64 = tenth_wide as u64;
    let mut r = u64_to_string(whole);
    r.append(".");
    r.append(digit_to_str(tenth));
    r.append("\u{00B0}C");
    assert(r@ =~= temperature_text(*t));
    r
}

/// Renders a battery reading as a bracketed percentage with the AC
/// marker.
pub fn battery_to_string(b: &BatteryReading) -> (r: String)
    ensures
        r@ == battery_text(*b),
{
    let mut r = "[".to_owned();
    let charge = u64_to_string(b.charge);
    r.append(charge.as_str());
    r.append("%");
    if b.on_ac {
        r.append("+");
    }
    r.append("]");
    assert(r@ =~= battery_text(*b));
    r
}

/// Renders an uptime as zero-padded hours and minutes.
pub fn uptime_to_string(u: u64) -> (r: String)
    ensures
        r@ == uptime_text(u),
{
    let mut r = u64_to_padded2_string(u / 3600);
    r.append(":");
    let minutes = u64_to_padded2_string((u / 60) % 60);
    r.append(minutes.as_str());
    assert(r@ =~= uptime_text(u));
    r
}

fn weekday_name_exec(w: u64) -> (r: &'static str)
    ensures
        r@ == weekday_name(w as int),
{
    if w == 0 {
        "Sun"
    } else if w == 1 {
        "Mon"
    } else if w == 2 {
        "Tue"
    } else if w == 3 {
        "Wed"
    } else if w == 4 {
        "Thu"
    } else if w == 5 {
        "Fri"
    } else {
        "Sat"
    }
}

/// Renders a wall-clock reading in the fixed human form.
pub fn time_to_string(t: &TimeParts) -> (r: String)
    ensures
        r@ == time_text(*t),
{
    let mut r = weekday_name_exec(t.weekday).to_owned();
    r.append(" ");
    let month = u64_to_padded2_string(t.month);
    r.append(month.as_str());
    r.append("/");
    let day = u64_to_padded2_string(t.day);
    r.append(day.as_str());
    r.append("  ");
    let hour = u64_to_padded2_string(t.hour);
    r.append(hour.as_str());
    r.append(":");
    let minute = u64_to_padded2_string(t.minute);
    r.append(minute.as_str());
    assert(r@ =~= time_text(*t));
    r
}

/// Renders the snapshot of one tick into the status line.
pub fn render(snap: &MetricsSnapshot) -> (line: String)
    requires
        snapshot_wf(*snap),
    ensures
        line@ == line_spec(*snap),
{
    let mut line = network_glyph_exec(snap.network).to_owned();
    line.append(SEPARATOR);
    line.append(snap.memory_text.as_str());
    line.append(SEPARATOR);
    match &snap.cpu_temperature {
        Some(t) => {
            let s = temperature_to_string(t);
            line.append(s.as_str());
            line.append(SEPARATOR);
        },
        None => {},
    }
    match &snap.battery {
        Some(b) => {
            let s = battery_to_string(b);
            line.append(s.as_str());
            line.append(SEPARATOR);
        },
        None => {},
    }
    match snap.uptime_seconds {
        Some(u) => {
            let s = uptime_to_string(u);
            line.append(s.as_str());
            line.append(SEPARATOR);
            let ts = time_to_string(&snap.time);
            line.append(ts.as_str());
            line.append(" ");
        },
        None => {},
    }
    assert(line@ =~= line_spec(*snap));
    line
}

/// The line holds exactly the segments of the present metrics, in
/// fixed order, between the always-present head (glyph, memory) and
/// nothing else: a present optional metric contributes its one
/// nonempty segment, an absent one contributes nothing at all.
pub proof fn lemma_line_is_exactly_the_present_segments(s: MetricsSnapshot)
    ensures
        line_spec(s) == glyph_part(s) + memory_part(s) + temperature_part(s) + battery_part(s)
            + clock_part(s),
        s.cpu_temperature matches Some(t) ==> temperature_part(s) == temperature_text(t)
            + SEPARATOR@ && temperature_part(s).len() > 0,
        s.cpu_temperature is None ==> temperature_part(s) == Seq::<char>::empty(),
        s.battery matches Some(b) ==> battery_part(s) == battery_text(b) + SEPARATOR@
            && battery_part(s).len() > 0,
        s.battery is None ==> battery_part(s) == Seq::<char>::empty(),
        s.uptime_seconds matches Some(u) ==> clock_part(s) == uptime_text(u) + SEPARATOR@
            + time_text(s.time) + " "@ && clock_part(s).len() > 0,
        s.uptime_seconds is None ==> clock_part(s) == Seq::<char>::empty(),
{
    assert(line_spec(s) =~= glyph_part(s) + memory_part(s) + temperature_part(s) + battery_part(s)
        + clock_part(s));
    if let Some(t) = s.cpu_temperature {
        crate::numtext::lemma_dec_str_len(((t.raw as int) / (t.denominator as int)) as nat);
    }
    if let Some(b) = s.battery {
        reveal_strlit("[");
    }
    if let Some(u) = s.uptime_seconds {
        crate::numtext::lemma_dec_str_len((u as nat) / 3600);
    }
}

/// Two consecutive ticks with unchanged sources render identically but
/// for the uptime and wall-clock tail: everything before it is a
/// function of the unchanged metrics alone. (Of the memory segment the
/// unchanged formatted text is asked, not only the count: above a
/// kilobyte the outside formatter's unit choice is not promised stable
/// across calls.)
pub proof fn lemma_unchanged_sources_stable_prefix(s1: MetricsSnapshot, s2: MetricsSnapshot)
    requires
        s1.network == s2.network,
        s1.memory_text@ == s2.memory_text@,
        s1.cpu_temperature == s2.cpu_temperature,
        s1.battery == s2.battery,
    ensures
        static_part(s1) == static_part(s2),
        line_spec(s1) == static_part(s1) + clock_part(s1),
        line_spec(s2) == static_part(s1) + clock_part(s2),
{
}

/// A missing battery metric omits the battery segment alone: the line
/// of such a snapshot is the other snapshot's line with the battery
/// segment taken out, every other segment rendering unchanged.
pub proof fn lemma_battery_missing_omits_segment(s1: MetricsSnapshot, s2: MetricsSnapshot)
    requires
        s2.battery is None,
        s1.network == s2.network,
        s1.memory_text@ == s2.memory_text@,
        s1.cpu_temperature == s2.cpu_temperature,
        s1.uptime_seconds == s2.uptime_seconds,
        s1.time == s2.time,
    ensures
        battery_part(s2) == Seq::<char>::empty(),
        line_spec(s2) == glyph_part(s1) + memory_part(s1) + temperature_part(s1) + clock_part(s1),
{
    assert(line_spec(s2) =~= glyph_part(s1) + memory_part(s1) + temperature_part(s1) + clock_part(
        s1,
    ));
}

} // verus!

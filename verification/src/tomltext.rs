//! The bridge to the `toml` crate: whether a configuration text parses,
//! and the four schema fields read out of the document it denotes. A
//! parsed document is a function of the text alone, so each extraction
//! carries a name that contracts downstream can speak of; what a name
//! yields on a given text only running the parser can tell.

use vstd::prelude::*;

verus! {

/// Whether the `toml` crate accepts this text as a TOML document.
pub uninterp spec fn toml_parses(s: Seq<char>) -> bool;

/// The string at `cpu.temperature_file` of the document this text
/// denotes; nothing where the group or field is missing, or the field
/// is no string.
pub uninterp spec fn toml_cpu_temperature_file_of(s: Seq<char>) -> Option<Seq<char>>;

/// The integer at `cpu.temperature_denominator` of the document this
/// text denotes; nothing where it is missing or no integer.
pub uninterp spec fn toml_cpu_temperature_denominator_of(s: Seq<char>) -> Option<i64>;

/// The string at `battery.charge_file` of the document this text
/// denotes; nothing where it is missing or no string.
pub uninterp spec fn toml_battery_charge_file_of(s: Seq<char>) -> Option<Seq<char>>;

/// The string at `battery.status_file` of the document this text
/// denotes; nothing where it is missing or no string.
pub uninterp spec fn toml_battery_status_file_of(s: Seq<char>) -> Option<Seq<char>>;

pub open spec fn opt_string_view(o: Option<String>) -> Option<Seq<char>> {
    match o {
        Some(s) => Some(s@),
        None => None,
    }
}

/// Relies on `toml::from_str`: deterministic in its input, it returns
/// `Ok` exactly on well-formed TOML document text.
#[verifier::external_body]
pub(crate) fn toml_document_parses(s: &str) -> (r: bool)
    ensures
        r == toml_parses(s@),
{
    toml::from_str::<toml::Value>(s).is_ok()
}

/// Relies on `toml::from_str`, `Value::get` and `Value::as_str`: the
/// `cpu.temperature_file` string of the document, a function of the
/// text alone.
#[verifier::external_body]
pub(crate) fn toml_cpu_temperature_file(s: &str) -> (r: Option<String>)
    ensures
        opt_string_view(r) == toml_cpu_temperature_file_of(s@),
{
    let v: toml::Value = toml::from_str(s).ok()?;
    Some(v.get("cpu")?.get("temperature_file")?.as_str()?.to_owned())
}

/// Relies on `toml::from_str`, `Value::get` and `Value::as_integer`:
/// the `cpu.temperature_denominator` integer of the document, a
/// function of the text alone.
#[verifier::external_body]
pub(crate) fn toml_cpu_temperature_denominator(s: &str) -> (r: Option<i64>)
    ensures
        r == toml_cpu_temperature_denominator_of(s@),
{
    let v: toml::Value = toml::from_str(s).ok()?;
    v.get("cpu")?.get("temperature_denominator")?.as_integer()
}

/// Relies on `toml::from_str`, `Value::get` and `Value::as_str`: the
/// `battery.charge_file` string of the document, a function of the
/// text alone.
#[verifier::external_body]
pub(crate) fn toml_battery_charge_file(s: &str) -> (r: Option<String>)
    ensures
        opt_string_view(r) == toml_battery_charge_file_of(s@),
{
    let v: toml::Value = toml::from_str(s).ok()?;
    Some(v.get("battery")?.get("charge_file")?.as_str()?.to_owned())
}

/// Relies on `toml::from_str`, `Value::get` and `Value::as_str`: the
/// `battery.status_file` string of the document, a function of the
/// text alone.
#[verifier::external_body]
pub(crate) fn toml_battery_status_file(s: &str) -> (r: Option<String>)
    ensures
        opt_string_view(r) == toml_battery_status_file_of(s@),
{
    let v: toml::Value = toml::from_str(s).ok()?;
    Some(v.get("battery")?.get("status_file")?.as_str()?.to_owned())
}

} // verus!

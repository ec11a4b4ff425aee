//! Configuration: the typed model of which metric sources are enabled,
//! the search over candidate directories, and the fail-safe resolution
//! from a discovered file text to a model, falling back to the
//! compiled-in default on any failure.

use vstd::prelude::*;
use vstd::string::StringExecFns;
use crate::tomltext::{opt_string_view, toml_battery_charge_file, toml_battery_charge_file_of,
    toml_battery_status_file, toml_battery_status_file_of, toml_cpu_temperature_denominator,
    toml_cpu_temperature_denominator_of, toml_cpu_temperature_file, toml_cpu_temperature_file_of,
    toml_document_parses, toml_parses};

verus! {

/// The divisor applied to a raw temperature reading when the
/// configuration names none: a milli-degree sensor convention.
pub const DEFAULT_TEMPERATURE_DENOMINATOR: u64 = 1000;

/// The compiled-in configuration text, the fallback whenever discovery
/// or parsing fails. `AppConfig::default()` builds the model this text
/// denotes directly, so the fallback can never fail; `default_res`
/// parses this text through the ordinary path, and the tests hold the
/// two against each other.
pub const DEFAULT_CONFIG_TEXT: &'static str = "[cpu]\ntemperature_file = \"/sys/class/thermal/thermal_zone0/temp\"\ntemperature_denominator = 1000\n\n[battery]\ncharge_file = \"/sys/class/power_supply/BAT0/capacity\"\nstatus_file = \"/sys/class/power_supply/AC/online\"\n";

/// The raw image of the configuration file: every field optional, the
/// denominator as the signed integer TOML supplies.
pub struct AppCpuConfigRaw {
    pub temperature_file: Option<String>,
    pub temperature_denominator: Option<i64>,
}

pub struct AppBatteryConfigRaw {
    pub charge_file: Option<String>,
    pub status_file: Option<String>,
}

pub struct AppConfigRaw {
    pub cpu: AppCpuConfigRaw,
    pub battery: AppBatteryConfigRaw,
}

/// The validated CPU-temperature source: an optional source file and an
/// optional positive denominator.
pub struct AppCpuConfig {
    pub temperature_file: Option<String>,
    pub temperature_denominator: Option<u64>,
}

/// The battery source: an optional charge file and an optional AC
/// status file.
pub struct AppBatteryConfig {
    pub charge_file: Option<String>,
    pub status_file: Option<String>,
}

/// The immutable model built once at startup: absence of a source's
/// file path disables that metric for the process lifetime.
pub struct AppConfig {
    pub cpu: AppCpuConfig,
    pub battery: AppBatteryConfig,
}

/// The one failure the resolver can report: the compiled-in default
/// text itself did not parse, a programming defect.
pub enum ConfigError {
    FallbackConfigInvalid,
}

/// A configured denominator is always positive.
pub open spec fn cpu_config_wf(c: AppCpuConfig) -> bool {
    c.temperature_denominator matches Some(d) ==> d >= 1
}

pub open spec fn config_wf(c: AppConfig) -> bool {
    cpu_config_wf(c.cpu)
}

/// The denominator a raw reading keeps: only a positive one, as the
/// conversion to the validated model applies it.
pub open spec fn validated_denominator(d: Option<i64>) -> Option<u64> {
    match d {
        Some(d) => if d >= 1 {
            Some(d as u64)
        } else {
            None
        },
        None => None,
    }
}

/// The raw schema a text denotes: each field is the named extraction
/// of that text.
pub open spec fn raw_matches_text(raw: AppConfigRaw, s: Seq<char>) -> bool {
    &&& opt_string_view(raw.cpu.temperature_file) == toml_cpu_temperature_file_of(s)
    &&& raw.cpu.temperature_denominator == toml_cpu_temperature_denominator_of(s)
    &&& opt_string_view(raw.battery.charge_file) == toml_battery_charge_file_of(s)
    &&& opt_string_view(raw.battery.status_file) == toml_battery_status_file_of(s)
}

/// The validated model a text denotes: the named extractions, with the
/// denominator kept only where positive.
pub open spec fn config_matches_text(c: AppConfig, s: Seq<char>) -> bool {
    &&& opt_string_view(c.cpu.temperature_file) == toml_cpu_temperature_file_of(s)
    &&& c.cpu.temperature_denominator == validated_denominator(
        toml_cpu_temperature_denominator_of(s),
    )
    &&& opt_string_view(c.battery.charge_file) == toml_battery_charge_file_of(s)
    &&& opt_string_view(c.battery.status_file) == toml_battery_status_file_of(s)
}

/// The model that the compiled-in default text denotes.
pub open spec fn config_is_default(c: AppConfig) -> bool {
    &&& c.cpu.temperature_file matches Some(f) && f@ == "/sys/class/thermal/thermal_zone0/temp"@
    &&& c.cpu.temperature_denominator == Some(1000u64)
    &&& c.battery.charge_file matches Some(f) && f@ == "/sys/class/power_supply/BAT0/capacity"@
    &&& c.battery.status_file matches Some(f) && f@ == "/sys/class/power_supply/AC/online"@
}

impl vstd::std_specs::convert::FromSpecImpl<AppCpuConfigRaw> for AppCpuConfig {
    open spec fn obeys_from_spec() -> bool {
        true
    }

    open spec fn from_spec(raw: AppCpuConfigRaw) -> AppCpuConfig {
        AppCpuConfig {
            temperature_file: raw.temperature_file,
            temperature_denominator: match raw.temperature_denominator {
                Some(d) => if d >= 1 {
                    Some(d as u64)
                } else {
                    None
                },
                None => None,
            },
        }
    }
}

impl From<AppCpuConfigRaw> for AppCpuConfig {
    /// Keeps the source file as given and a denominator only where it
    /// is positive; a zero or negative denominator is treated as
    /// absent.
    fn from(raw: AppCpuConfigRaw) -> (r: AppCpuConfig) {
        AppCpuConfig {
            temperature_file: raw.temperature_file,
            temperature_denominator: match raw.temperature_denominator {
                Some(d) => if d >= 1 {
                    Some(d as u64)
                } else {
                    None
                },
                None => None,
            },
        }
    }
}

impl vstd::std_specs::convert::FromSpecImpl<AppBatteryConfigRaw> for AppBatteryConfig {
    open spec fn obeys_from_spec() -> bool {
        true
    }

    open spec fn from_spec(raw: AppBatteryConfigRaw) -> AppBatteryConfig {
        AppBatteryConfig { charge_file: raw.charge_file, status_file: raw.status_file }
    }
}

impl From<AppBatteryConfigRaw> for AppBatteryConfig {
    fn from(raw: AppBatteryConfigRaw) -> (r: AppBatteryConfig) {
        AppBatteryConfig { charge_file: raw.charge_file, status_file: raw.status_file }
    }
}

impl vstd::std_specs::convert::FromSpecImpl<AppConfigRaw> for AppConfig {
    open spec fn obeys_from_spec() -> bool {
        true
    }

    open spec fn from_spec(raw: AppConfigRaw) -> AppConfig {
        AppConfig {
            cpu: <AppCpuConfig as vstd::std_specs::convert::FromSpec<AppCpuConfigRaw>>::from_spec(
                raw.cpu,
            ),
            battery: <AppBatteryConfig as vstd::std_specs::convert::FromSpec<
                AppBatteryConfigRaw,
            >>::from_spec(raw.battery),
        }
    }
}

impl From<AppConfigRaw> for AppConfig {
    fn from(raw: AppConfigRaw) -> (r: AppConfig) {
        AppConfig { cpu: AppCpuConfig::from(raw.cpu), battery: AppBatteryConfig::from(raw.battery) }
    }
}

/// Parses a configuration text into the raw schema: group `cpu` with
/// `temperature_file` and `temperature_denominator`, group `battery`
/// with `charge_file` and `status_file`. Yields nothing exactly when
/// the text is not a well-formed TOML document; on a document, each
/// raw field is the named extraction of the text. A missing group or
/// field is simply absent, and so — deliberately lenient — is a
/// present field of the wrong type; unrecognized fields are ignored.
pub fn parse_to_config_file(text: &str) -> (r: Option<AppConfigRaw>)
    ensures
        (r is Some) == toml_parses(text@),
        r matches Some(raw) ==> raw_matches_text(raw, text@),
{
    if toml_document_parses(text) {
        Some(
            AppConfigRaw {
                cpu: AppCpuConfigRaw {
                    temperature_file: toml_cpu_temperature_file(text),
                    temperature_denominator: toml_cpu_temperature_denominator(text),
                },
                battery: AppBatteryConfigRaw {
                    charge_file: toml_battery_charge_file(text),
                    status_file: toml_battery_status_file(text),
                },
            },
        )
    } else {
        None
    }
}

impl Default for AppConfig {
    /// The compiled-in default, built directly: the model that
    /// `DEFAULT_CONFIG_TEXT` denotes.
    fn default() -> (r: AppConfig)
        ensures
            config_is_default(r),
            config_wf(r),
    {
        AppConfig {
            cpu: AppCpuConfig {
                temperature_file: Some("/sys/class/thermal/thermal_zone0/temp".to_owned()),
                temperature_denominator: Some(1000),
            },
            battery: AppBatteryConfig {
                charge_file: Some("/sys/class/power_supply/BAT0/capacity".to_owned()),
                status_file: Some("/sys/class/power_supply/AC/online".to_owned()),
            },
        }
    }
}

impl AppConfig {
    /// Parses the compiled-in default text through the ordinary parsing
    /// path. Failure would mean the embedded text itself is broken — a
    /// startup defect for the caller to abort on, never a runtime
    /// condition.
    pub fn default_res() -> (r: Result<AppConfig, ConfigError>)
        ensures
            (r is Ok) == toml_parses(DEFAULT_CONFIG_TEXT@),
            r matches Ok(c) ==> config_wf(c) && config_matches_text(c, DEFAULT_CONFIG_TEXT@),
    {
        match parse_to_config_file(DEFAULT_CONFIG_TEXT) {
            Some(raw) => Ok(AppConfig::from(raw)),
            None => Err(ConfigError::FallbackConfigInvalid),
        }
    }

    /// Resolves the model for this process: a discovered text that
    /// parses supplies the whole configuration; no text, or a text that
    /// fails to parse, falls back to the compiled-in default. Never
    /// fails.
    pub fn load(config_text: Option<&str>) -> (r: AppConfig)
        ensures
            config_wf(r),
            match config_text {
                Some(t) => {
                    &&& toml_parses(t@) ==> config_matches_text(r, t@)
                    &&& !toml_parses(t@) ==> config_is_default(r)
                },
                None => config_is_default(r),
            },
    {
        let parsed = match config_text {
            Some(t) => parse_to_config_file(t),
            None => None,
        };
        match parsed {
            Some(raw) => AppConfig::from(raw),
            None => AppConfig::default(),
        }
    }
}

/// The view of an optionally discovered configuration text.
pub open spec fn opt_text_view(t: Option<&str>) -> Option<Seq<char>> {
    match t {
        Some(s) => Some(s@),
        None => None,
    }
}

/// A configuration source resolved from an optionally discovered file
/// text. `resolved_from` says what resolution promises for the type;
/// `get_config` keeps it on every path.
pub trait TomlConfigFile: Sized {
    spec fn resolved_from(&self, config_text: Option<Seq<char>>) -> bool;

    fn get_config(config_text: Option<&str>) -> (r: Self)
        ensures
            r.resolved_from(opt_text_view(config_text)),
    ;
}

impl TomlConfigFile for AppConfig {
    /// A text that parses supplies every field; anything else yields
    /// the compiled-in default; the result is always well formed.
    open spec fn resolved_from(&self, config_text: Option<Seq<char>>) -> bool {
        &&& config_wf(*self)
        &&& match config_text {
            Some(t) => {
                &&& toml_parses(t) ==> config_matches_text(*self, t)
                &&& !toml_parses(t) ==> config_is_default(*self)
            },
            None => config_is_default(*self),
        }
    }

    fn get_config(config_text: Option<&str>) -> (r: Self) {
        Self::load(config_text)
    }
}

/// One candidate configuration directory: its path and the file names
/// it holds.
pub struct DirListing {
    pub path: String,
    pub entries: Vec<String>,
}

pub open spec fn dir_contains(d: DirListing, filename: Seq<char>) -> bool {
    exists|k: int| 0 <= k < d.entries@.len() && d.entries@[k]@ == filename
}

/// The path of `filename` inside `dir`.
pub open spec fn joined_path(dir: Seq<char>, filename: Seq<char>) -> Seq<char> {
    dir + "/"@ + filename
}

pub open spec fn search_from(filename: Seq<char>, dirs: Seq<DirListing>, i: int) -> Option<
    Seq<char>,
>
    decreases dirs.len() - i,
{
    if i < 0 || i >= dirs.len() {
        None
    } else if dir_contains(dirs[i], filename) {
        Some(joined_path(dirs[i].path@, filename))
    } else {
        search_from(filename, dirs, i + 1)
    }
}

/// What the directory search yields: the file's path under the first
/// candidate directory that holds it, in order of preference.
pub open spec fn search_spec(filename: Seq<char>, dirs: Seq<DirListing>) -> Option<Seq<char>> {
    search_from(filename, dirs, 0)
}

/// The override directory wins: when the first candidate directory
/// holds the file, the search yields that directory's path, whatever
/// any later directory holds.
pub proof fn lemma_first_directory_wins(filename: Seq<char>, dirs: Seq<DirListing>)
    requires
        dirs.len() > 0,
        dir_contains(dirs[0], filename),
    ensures
        search_spec(filename, dirs) == Some(joined_path(dirs[0].path@, filename)),
{
}

fn dir_contains_exec(d: &DirListing, filename: &String) -> (r: bool)
    ensures
        r == dir_contains(*d, filename@),
{
    let n = d.entries.len();
    let mut k: usize = 0;
    while k < n
        invariant
            0 <= k <= n,
            n == d.entries@.len(),
            forall|j: int| 0 <= j < k ==> d.entries@[j]@ != filename@,
        decreases n - k,
    {
        if d.entries[k].eq(filename) {
            return true;
        }
        k = k + 1;
    }
    assert(!dir_contains(*d, filename@)) by {
        if dir_contains(*d, filename@) {
            let j = choose|j: int| 0 <= j < d.entries@.len() && d.entries@[j]@ == filename@;
        }
    };
    false
}

/// Scans the candidate directories in order of preference and yields
/// the path of the first one that holds `filename`; nothing when none
/// does. Never itself errors.
pub fn search_directories(filename: &str, directories: &Vec<DirListing>) -> (r: Option<String>)
    ensures
        (r is Some) == (search_spec(filename@, directories@) is Some),
        r matches Some(p) ==> Some(p@) == search_spec(filename@, directories@),
{
    let owned = filename.to_owned();
    let n = directories.len();
    let mut i: usize = 0;
    while i < n
        invariant
            0 <= i <= n,
            n == directories@.len(),
            owned@ == filename@,
            search_spec(filename@, directories@) == search_from(filename@, directories@, i as int),
        decreases n - i,
    {
        let d = &directories[i];
        if dir_contains_exec(d, &owned) {
            let mut p = d.path.clone();
            p.append("/");
            p.append(filename);
            assert(p@ == joined_path(directories@[i as int].path@, filename@));
            return Some(p);
        }
        i = i + 1;
    }
    None
}

} // verus!

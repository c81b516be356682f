use vstd::prelude::*;
use configparser::ini::Ini;

use crate::error::FuzzError;

verus! {

#[verifier::external_type_specification]
#[verifier::external_body]
pub struct ExIni(Ini);

/// The values a loaded INI file holds, keyed by (section, key) as they
/// are asked for.
pub uninterp spec fn ini_values(ini: Ini) -> Map<(Seq<char>, Seq<char>), Seq<char>>;

/// Relies on `configparser::ini::Ini::get`: the value stored under `key`
/// in `section`, or `None` when there is none.
#[verifier::external_body]
fn ini_get(ini: &Ini, section: &str, key: &str) -> (r: Option<String>)
    ensures
        r is Some == ini_values(*ini).contains_key((section@, key@)),
        r matches Some(v) ==> v@ == ini_values(*ini)[(section@, key@)],
{
    ini.get(section, key)
}

/// Whether `c` is an ASCII decimal digit.
pub open spec fn is_decimal_digit(c: char) -> bool {
    '0' <= c && c <= '9'
}

/// The number that a string of decimal digits spells.
pub open spec fn decimal_value(s: Seq<char>) -> int
    decreases s.len(),
{
    if s.len() == 0 {
        0
    } else {
        decimal_value(s.drop_last()) * 10 + (s.last() as int - '0' as int)
    }
}

/// `s` read as a `u64` the way `str::parse::<u64>` reads it: an optional
/// `+`, then one or more decimal digits, of a value that fits.
pub open spec fn parse_u64(s: Seq<char>) -> Option<u64> {
    let digits = if s.len() > 0 && s[0] == '+' {
        s.drop_first()
    } else {
        s
    };
    if digits.len() > 0 && (forall|i: int| 0 <= i < digits.len() ==> is_decimal_digit(#[trigger] digits[i]))
        && decimal_value(digits) <= u64::MAX {
        Some(decimal_value(digits) as u64)
    } else {
        None
    }
}

/// Relies on `configparser::ini::Ini::getuint`: `Ok(None)` when no value is
/// stored under `key` in `section`; otherwise the stored value read by
/// `str::parse::<u64>`, or an error when it does not read as one.
#[verifier::external_body]
fn ini_getuint(ini: &Ini, section: &str, key: &str) -> (r: Result<Option<u64>, String>)
    ensures
        (r matches Ok(None)) == !ini_values(*ini).contains_key((section@, key@)),
        r matches Ok(Some(n)) ==> ini_values(*ini).contains_key((section@, key@)) && parse_u64(
            ini_values(*ini)[(section@, key@)],
        ) == Some(n),
        r is Err ==> ini_values(*ini).contains_key((section@, key@)) && parse_u64(
            ini_values(*ini)[(section@, key@)],
        ) is None,
{
    ini.getuint(section, key)
}

/// Map size used when none is configured.
pub const DEFAULT_MAP_SIZE: u64 = 1024;

/// `v` or, when absent, `default`.
pub open spec fn or_default(v: Option<Seq<char>>, default: Seq<char>) -> Seq<char> {
    match v {
        Some(s) => s,
        None => default,
    }
}

/// The views of an optional string.
pub open spec fn opt_view(v: Option<String>) -> Option<Seq<char>> {
    match v {
        Some(s) => Some(s@),
        None => None,
    }
}

/// The value stored under `key` in the settings section, if any.
pub open spec fn setting(ini: Ini, key: Seq<char>) -> Option<Seq<char>> {
    if ini_values(ini).contains_key(("general"@, key)) {
        Some(ini_values(ini)[("general"@, key)])
    } else {
        None
    }
}

/// Settings of a fuzzing run.
#[derive(Debug)]
pub struct Config {
    /// Size of the coverage map, in bytes.
    pub map_size: usize,
    /// Symbol of the target's entry point, looped over in persistent mode.
    pub persistent_sym: String,
    /// Path of the emulator binary.
    pub qemu_path: String,
    /// Library search path for the emulated process.
    pub ld_library_path: Option<String>,
    /// Directory for crashing inputs.
    pub crash_path: String,
    /// Directory of the initial inputs.
    pub corpus_path: String,
    /// Directory for inputs that entered the queue.
    pub queue_path: Option<String>,
    /// Directory for the statistics plot.
    pub plot_path: Option<String>,
}

impl Config {
    /// Builds a configuration from the values found, with the defaults
    /// for those absent. The emulator path is required; the map size
    /// defaults to 1024 and must fit in memory sizes.
    pub fn from_values(
        map_size: Option<u64>,
        persistent_sym: Option<String>,
        qemu_path: Option<String>,
        ld_library_path: Option<String>,
        crash_path: Option<String>,
        corpus_path: Option<String>,
        queue_path: Option<String>,
        plot_path: Option<String>,
    ) -> (r: Result<Config, FuzzError>)
        ensures
            qemu_path is None ==> r == Err::<Config, FuzzError>(FuzzError::MissingQemuPath),
            qemu_path is Some && (match map_size {
                Some(n) => n as int > usize::MAX,
                None => false,
            }) ==> r == Err::<Config, FuzzError>(FuzzError::InvalidMapSize),
            r matches Ok(c) ==> {
                &&& c.map_size as int == match map_size {
                    Some(n) => n as int,
                    None => DEFAULT_MAP_SIZE as int,
                }
                &&& qemu_path matches Some(q) && c.qemu_path@ == q@
                &&& c.persistent_sym@ == or_default(opt_view(persistent_sym), "main"@)
                &&& c.crash_path@ == or_default(opt_view(crash_path), "./crashes"@)
                &&& c.corpus_path@ == or_default(opt_view(corpus_path), "./corpus"@)
                &&& opt_view(c.ld_library_path) == opt_view(ld_library_path)
                &&& opt_view(c.queue_path) == opt_view(queue_path)
                &&& opt_view(c.plot_path) == opt_view(plot_path)
            },
            r is Ok <==> qemu_path is Some && match map_size {
                Some(n) => n as int <= usize::MAX,
                None => true,
            },
    {
        let qemu_path = match qemu_path {
            Some(q) => q,
            None => {
                return Err(FuzzError::MissingQemuPath);
            },
        };
        let size: u64 = match map_size {
            Some(n) => n,
            None => DEFAULT_MAP_SIZE,
        };
        if size as u128 > usize::MAX as u128 {
            return Err(FuzzError::InvalidMapSize);
        }
        let persistent_sym = match persistent_sym {
            Some(s) => s,
            None => "main".to_owned(),
        };
        let crash_path = match crash_path {
            Some(s) => s,
            None => "./crashes".to_owned(),
        };
        let corpus_path = match corpus_path {
            Some(s) => s,
            None => "./corpus".to_owned(),
        };
        Ok(Config {
            map_size: size as usize,
            persistent_sym,
            qemu_path,
            ld_library_path,
            crash_path,
            corpus_path,
            queue_path,
            plot_path,
        })
    }

    /// Reads the configuration from the `general` section of a loaded INI
    /// file. Fails when `qemu_path` is missing or `map_size` is not a
    /// usable number.
    pub fn from_ini(ini: &Ini) -> (r: Result<Config, FuzzError>)
        ensures
            setting(*ini, "map_size"@) matches Some(v) && parse_u64(v) is None ==> r == Err::<Config, FuzzError>(
                FuzzError::InvalidMapSize,
            ),
            setting(*ini, "qemu_path"@) is None && (setting(*ini, "map_size"@) matches Some(v) ==> parse_u64(v)
                is Some) ==> r == Err::<Config, FuzzError>(FuzzError::MissingQemuPath),
            setting(*ini, "map_size"@) is None ==> (r is Ok <==> setting(*ini, "qemu_path"@) is Some),
            setting(*ini, "map_size"@) matches Some(v) ==> (r is Ok <==> setting(*ini, "qemu_path"@) is Some
                && (parse_u64(v) matches Some(n) && n as int <= usize::MAX)),
            r matches Ok(c) ==> (setting(*ini, "map_size"@) matches Some(v) ==> parse_u64(v) == Some(
                c.map_size as u64,
            )),
            r matches Ok(c) ==> {
                &&& setting(*ini, "qemu_path"@) == Some(c.qemu_path@)
                &&& c.persistent_sym@ == or_default(setting(*ini, "persistent_sym"@), "main"@)
                &&& c.crash_path@ == or_default(setting(*ini, "crash_path"@), "./crashes"@)
                &&& c.corpus_path@ == or_default(setting(*ini, "corpus_path"@), "./corpus"@)
                &&& opt_view(c.ld_library_path) == setting(*ini, "ld_library_path"@)
                &&& opt_view(c.queue_path) == setting(*ini, "queue_path"@)
                &&& opt_view(c.plot_path) == setting(*ini, "plot_path"@)
                &&& setting(*ini, "map_size"@) is None ==> c.map_size == DEFAULT_MAP_SIZE
            },
    {
        let map_size = match ini_getuint(ini, "general", "map_size") {
            Ok(v) => v,
            Err(_) => {
                return Err(FuzzError::InvalidMapSize);
            },
        };
        Config::from_values(
            map_size,
            ini_get(ini, "general", "persistent_sym"),
            ini_get(ini, "general", "qemu_path"),
            ini_get(ini, "general", "ld_library_path"),
            ini_get(ini, "general", "crash_path"),
            ini_get(ini, "general", "corpus_path"),
            ini_get(ini, "general", "queue_path"),
            ini_get(ini, "general", "plot_path"),
        )
    }
}

} // verus!

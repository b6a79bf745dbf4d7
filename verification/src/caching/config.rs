//! Which cache the server runs with.

use crate::config::env_vars::{setting, settings_view};
use crate::constants;
use crate::numbers::{decimal, parse_unsigned, u64_to_chars};
use crate::string_map::StringMap;
use crate::text::{append_chars, chars_of, is, lowercase_chars, string_of, unicode_lower};
use vstd::prelude::*;

verus! {

/// The cache backend and its sizes.
#[derive(Debug, Clone, PartialEq, Eq)]
pub enum CacheConfig {
    Memory { capacity: usize },
    Disk { path: String, capacity: usize },
    Hybrid { memory_capacity: usize, disk_path: String, disk_capacity: usize },
}

/// Why a cache configuration was refused.
#[derive(Debug)]
pub enum CacheError {
    /// The cache could not be set up.
    Initialization(String),
    /// A required variable was not set.
    Environment { name: &'static str },
    /// A capacity that is not a whole number of entries or bytes.
    InvalidCapacity { name: &'static str, value: String },
    /// A cache type other than `memory`, `disk` or `hybrid`.
    UnsupportedType { value: String },
}

/// Why cache settings are refused: a setting that must be there is missing,
/// a capacity (the named setting, and the text read for it) is no whole
/// number, or the cache type is none of the three.
pub enum CacheRefusal {
    MissingSetting(Seq<char>),
    InvalidCapacity(Seq<char>, Seq<char>),
    UnsupportedType(Seq<char>),
}

impl CacheError {
    /// The refusal a settings error reports; `None` for a failure to set the
    /// cache up.
    pub open spec fn refusal(&self) -> Option<CacheRefusal> {
        match self {
            CacheError::Initialization(_) => None,
            CacheError::Environment { name } => Some(CacheRefusal::MissingSetting(name@)),
            CacheError::InvalidCapacity { name, value } => Some(CacheRefusal::InvalidCapacity(name@, value@)),
            CacheError::UnsupportedType { value } => Some(CacheRefusal::UnsupportedType(value@)),
        }
    }
}

/// What a cache configuration holds, as text and numbers.
pub enum CacheConfigView {
    Memory { capacity: nat },
    Disk { path: Seq<char>, capacity: nat },
    Hybrid { memory_capacity: nat, disk_path: Seq<char>, disk_capacity: nat },
}

impl View for CacheConfig {
    type V = CacheConfigView;

    open spec fn view(&self) -> CacheConfigView {
        match self {
            CacheConfig::Memory { capacity } => CacheConfigView::Memory { capacity: *capacity as nat },
            CacheConfig::Disk { path, capacity } => CacheConfigView::Disk {
                path: path@,
                capacity: *capacity as nat,
            },
            CacheConfig::Hybrid { memory_capacity, disk_path, disk_capacity } => CacheConfigView::Hybrid {
                memory_capacity: *memory_capacity as nat,
                disk_path: disk_path@,
                disk_capacity: *disk_capacity as nat,
            },
        }
    }
}

/// The line the server logs at startup about its cache.
pub open spec fn startup_message(config: Option<CacheConfigView>) -> Seq<char> {
    match config {
        None => "Caching disabled"@,
        Some(CacheConfigView::Memory { capacity }) => "Caching enabled: memory (capacity="@ + decimal(
            capacity,
        ) + ")"@,
        Some(CacheConfigView::Disk { path, capacity }) => "Caching enabled: disk (path="@ + path
            + ", capacity="@ + decimal(capacity) + ")"@,
        Some(CacheConfigView::Hybrid { memory_capacity, disk_path, disk_capacity }) =>
            "Caching enabled: hybrid (memory_capacity="@ + decimal(memory_capacity) + ", disk_path="@
            + disk_path + ", disk_capacity="@ + decimal(disk_capacity) + ")"@,
    }
}

fn push_str(out: &mut Vec<char>, s: &str)
    ensures
        final(out)@ == old(out)@ + s@,
{
    let c = chars_of(s);
    append_chars(out, c.as_slice());
}

fn push_number(out: &mut Vec<char>, n: usize)
    ensures
        final(out)@ == old(out)@ + decimal(n as nat),
{
    let c = u64_to_chars(n as u64);
    append_chars(out, c.as_slice());
}

impl CacheConfig {
    /// The line logged at startup about the cache in use.
    pub fn startup_log_message(config: Option<&Self>) -> (r: String)
        ensures
            r@ == startup_message(
                match config {
                    Some(c) => Some(c@),
                    None => None,
                },
            ),
    {
        let mut out: Vec<char> = Vec::new();
        match config {
            None => {
                push_str(&mut out, "Caching disabled");
            },
            Some(CacheConfig::Memory { capacity }) => {
                push_str(&mut out, "Caching enabled: memory (capacity=");
                push_number(&mut out, *capacity);
                push_str(&mut out, ")");
            },
            Some(CacheConfig::Disk { path, capacity }) => {
                push_str(&mut out, "Caching enabled: disk (path=");
                push_str(&mut out, path.as_str());
                push_str(&mut out, ", capacity=");
                push_number(&mut out, *capacity);
                push_str(&mut out, ")");
            },
            Some(CacheConfig::Hybrid { memory_capacity, disk_path, disk_capacity }) => {
                push_str(&mut out, "Caching enabled: hybrid (memory_capacity=");
                push_number(&mut out, *memory_capacity);
                push_str(&mut out, ", disk_path=");
                push_str(&mut out, disk_path.as_str());
                push_str(&mut out, ", disk_capacity=");
                push_number(&mut out, *disk_capacity);
                push_str(&mut out, ")");
            },
        }
        assert(out@ =~= startup_message(
            match config {
                Some(c) => Some(c@),
                None => None,
            },
        ));
        string_of(out.as_slice())
    }
}

/// A capacity setting: its value, or `default` when absent, read as a whole
/// number.
pub open spec fn capacity_setting(v: Option<Seq<char>>, default: Seq<char>) -> Option<nat> {
    parse_unsigned(
        match v {
            Some(x) => x,
            None => default,
        },
        usize::MAX as nat,
    )
}

/// The text a capacity setting is read from: its value, or `default`.
pub open spec fn capacity_text(v: Option<Seq<char>>, default: Seq<char>) -> Seq<char> {
    match v {
        Some(x) => x,
        None => default,
    }
}

/// A capacity setting read as a whole number, or the refusal that names it.
pub open spec fn capacity_from(vars: Map<Seq<char>, Seq<char>>, name: Seq<char>, default: Seq<char>) -> Result<nat, CacheRefusal> {
    match capacity_setting(setting(vars, name), default) {
        Some(n) => Ok(n),
        None => Err(CacheRefusal::InvalidCapacity(name, capacity_text(setting(vars, name), default))),
    }
}

/// A setting that must be present, or the refusal that names it.
pub open spec fn required_from(vars: Map<Seq<char>, Seq<char>>, name: Seq<char>) -> Result<Seq<char>, CacheRefusal> {
    match setting(vars, name) {
        Some(v) => Ok(v),
        None => Err(CacheRefusal::MissingSetting(name)),
    }
}

/// What the cache settings ask for, or why they are refused: no cache when
/// no type is set; `memory`, `disk` or `hybrid` in any case, each with its
/// capacities (1000 entries in memory, 10000 bytes on disk by default) and,
/// for the disk, a path that must be set. The settings are read in the order
/// memory capacity, disk path, disk capacity, and the first refused one is
/// reported.
pub open spec fn cache_config_from(vars: Map<Seq<char>, Seq<char>>) -> Result<Option<CacheConfigView>, CacheRefusal> {
    let memory = capacity_from(vars, constants::ENV_CACHE_MEMORY_CAPACITY@, "1000"@);
    let disk = capacity_from(vars, constants::ENV_CACHE_DISK_CAPACITY@, "10000"@);
    let path = required_from(vars, constants::ENV_CACHE_DISK_PATH@);
    match setting(vars, constants::ENV_CACHE_TYPE@) {
        None => Ok(None),
        Some(t) => {
            let l = unicode_lower(t);
            if l == "memory"@ {
                match memory {
                    Ok(c) => Ok(Some(CacheConfigView::Memory { capacity: c })),
                    Err(e) => Err(e),
                }
            } else if l == "disk"@ {
                match (path, disk) {
                    (Err(e), _) => Err(e),
                    (Ok(p), Err(e)) => Err(e),
                    (Ok(p), Ok(c)) => Ok(Some(CacheConfigView::Disk { path: p, capacity: c })),
                }
            } else if l == "hybrid"@ {
                match (memory, path, disk) {
                    (Err(e), _, _) => Err(e),
                    (Ok(m), Err(e), _) => Err(e),
                    (Ok(m), Ok(p), Err(e)) => Err(e),
                    (Ok(m), Ok(p), Ok(d)) => Ok(
                        Some(
                            CacheConfigView::Hybrid { memory_capacity: m, disk_path: p, disk_capacity: d },
                        ),
                    ),
                }
            } else {
                Err(CacheRefusal::UnsupportedType(t))
            }
        },
    }
}

fn capacity_var(vars: &StringMap<String>, name: &'static str, default: &str) -> (r: Result<usize, CacheError>)
    ensures
        match capacity_from(settings_view(*vars), name@, default@) {
            Ok(n) => r matches Ok(x) && x == n,
            Err(f) => r matches Err(e) && e.refusal() == Some(f),
        },
{
    let value = match crate::config::env_vars::optional_var(vars, name) {
        Some(v) => v,
        None => default.to_owned(),
    };
    let c = chars_of(value.as_str());
    match crate::numbers::parse_uint(c.as_slice(), usize::MAX as u64) {
        Some(n) => Ok(n as usize),
        None => Err(CacheError::InvalidCapacity { name, value }),
    }
}

fn required_var(vars: &StringMap<String>, name: &'static str) -> (r: Result<String, CacheError>)
    ensures
        match required_from(settings_view(*vars), name@) {
            Ok(v) => r matches Ok(x) && x@ == v,
            Err(f) => r matches Err(e) && e.refusal() == Some(f),
        },
{
    match crate::config::env_vars::optional_var(vars, name) {
        Some(v) => Ok(v),
        None => Err(CacheError::Environment { name }),
    }
}

impl CacheConfig {
    /// Reads the cache configuration from the settings that are present.
    pub fn from_vars(vars: &StringMap<String>) -> (r: Result<Option<Self>, CacheError>)
        ensures
            match cache_config_from(settings_view(*vars)) {
                Ok(c) => r matches Ok(x) && match (x, c) {
                    (Some(a), Some(b)) => a@ == b,
                    (None, None) => true,
                    _ => false,
                },
                Err(f) => r matches Err(e) && e.refusal() == Some(f),
            },
    {
        let cache_type = match crate::config::env_vars::optional_var(vars, constants::ENV_CACHE_TYPE) {
            Some(v) => v,
            None => {
                return Ok(None);
            },
        };
        let t = chars_of(cache_type.as_str());
        let l = lowercase_chars(t.as_slice());
        if is(l.as_slice(), "memory") {
            let capacity = capacity_var(vars, constants::ENV_CACHE_MEMORY_CAPACITY, "1000")?;
            Ok(Some(CacheConfig::Memory { capacity }))
        } else if is(l.as_slice(), "disk") {
            let path = required_var(vars, constants::ENV_CACHE_DISK_PATH)?;
            let capacity = capacity_var(vars, constants::ENV_CACHE_DISK_CAPACITY, "10000")?;
            Ok(Some(CacheConfig::Disk { path, capacity }))
        } else if is(l.as_slice(), "hybrid") {
            let memory_capacity = capacity_var(vars, constants::ENV_CACHE_MEMORY_CAPACITY, "1000")?;
            let disk_path = required_var(vars, constants::ENV_CACHE_DISK_PATH)?;
            let disk_capacity = capacity_var(vars, constants::ENV_CACHE_DISK_CAPACITY, "10000")?;
            Ok(Some(CacheConfig::Hybrid { memory_capacity, disk_path, disk_capacity }))
        } else {
            Err(CacheError::UnsupportedType { value: cache_type })
        }
    }
}

} // verus!

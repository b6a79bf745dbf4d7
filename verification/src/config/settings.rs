//! The server's configuration and how it is read from its settings.

use super::env_vars::{
    bool_setting, bool_var, truthy, int_error_reason, int_error_text, optional_var, setting, settings_view,
    uint_setting,
};
use super::{
    bind_address_of, default_format_of, health_check_path_of, normalize_bind_address,
    normalize_health_check_path, normalize_path_prefix, parse_presets, path_prefix_of, preset_table,
    presets_from, DefaultOutputFormat, DefaultOutputFormatParseError, Directive, PresetConfigError,
};
use crate::constants::{self, DEFAULT_USER_AGENT};
use crate::limits::{
    dimension_from_text, file_size_from_text, resolution_from_text, MaxAnimationFrameResolution,
    MaxAnimationFrames, MaxResultDimension, MaxSourceFileSize, MaxSourceResolution, SecurityLimitError,
};
use crate::numbers::{parse_uint, parse_unsigned};
use crate::processing::options::{OptionDefaults, ParsedOptions, ProcessingOption};
use crate::processing::options::error::arg_views;
use crate::string_map::StringMap;
use crate::text::{chars_of, split_char, split_chars, string_of, trim, trim_chars, unicode_lower, lowercase_chars, views, is};
use vstd::prelude::*;
use vstd::string::StringSliceAdditionalSpecFns;

verus! {

#[verifier::external_type_specification]
#[verifier::external_body]
pub struct ExFromHexError(hex::FromHexError);

/// The value of a hexadecimal digit byte.
pub open spec fn hex_digit(b: u8) -> Option<u8> {
    if 48 <= b <= 57 {
        Some((b - 48) as u8)
    } else if 97 <= b <= 102 {
        Some((b - 87) as u8)
    } else if 65 <= b <= 70 {
        Some((b - 55) as u8)
    } else {
        None
    }
}

/// The bytes a hexadecimal text spells: an even number of digits in either
/// case, two to a byte, high digit first.
pub open spec fn hex_decoded(text: Seq<u8>) -> Option<Seq<u8>> {
    if text.len() % 2 != 0 {
        None
    } else if exists|i: int| 0 <= i < text.len() && (#[trigger] hex_digit(text[i])) is None {
        None
    } else {
        Some(
            Seq::new(
                text.len() / 2,
                |i: int| (hex_digit(text[2 * i])->0 * 16 + hex_digit(text[2 * i + 1])->0) as u8,
            ),
        )
    }
}

/// `hex::decode`: the bytes a hexadecimal text spells. The crate refuses an
/// odd length and any byte that is not a hex digit in either case, and
/// otherwise joins each two digits into a byte, high digit first.
#[verifier::external_body]
fn decode_hex(text: &str) -> (r: Result<Vec<u8>, hex::FromHexError>)
    ensures
        match hex_decoded(text.spec_bytes()) {
            Some(b) => r matches Ok(v) && v@ == b,
            None => r is Err,
        },
{
    hex::decode(text)
}

/// `num_cpus::get`: the number of logical CPUs this process may use, which
/// the crate guarantees is at least 1. Which number it is depends on the
/// machine, so nothing more is said of it.
#[verifier::external_body]
fn available_cpus() -> (r: usize)
    ensures
        r >= 1,
{
    num_cpus::get()
}

/// `tokio::sync::Semaphore::MAX_PERMITS`, which tokio defines as
/// `usize::MAX >> 3`.
#[verifier::external_body]
fn semaphore_max_permits() -> (r: usize)
    ensures
        r == usize::MAX >> 3,
{
    tokio::sync::Semaphore::MAX_PERMITS
}

/// Why a configuration was refused.
#[derive(Debug)]
pub enum ConfigError {
    InvalidKey(hex::FromHexError),
    InvalidSalt(hex::FromHexError),
    /// A variable held text that is not Unicode.
    InvalidUnicode { name: &'static str },
    InvalidSecurityLimit { name: &'static str, value: String, source: SecurityLimitError },
    InvalidPresets(PresetConfigError),
    InvalidDefaultFormat { name: &'static str, value: String, source: DefaultOutputFormatParseError },
    InvalidWorkerCount { name: &'static str, value: String },
    ZeroWorkers,
    WorkerCountTooLarge { value: usize, max: usize },
    InvalidValue { name: &'static str, value: String, reason: String },
}

/// The class of a configuration failure, and the setting it concerns.
#[derive(Debug, Clone, Copy, PartialEq, Eq, Structural)]
pub enum ConfigErrorKind {
    InvalidKey,
    InvalidSalt,
    InvalidUnicode,
    InvalidSecurityLimit(SecurityLimitError),
    InvalidPresets,
    InvalidDefaultFormat,
    InvalidWorkerCount,
    ZeroWorkers,
    WorkerCountTooLarge,
    InvalidValue,
}

impl ConfigError {
    pub open spec fn kind(&self) -> ConfigErrorKind {
        match self {
            ConfigError::InvalidKey(_) => ConfigErrorKind::InvalidKey,
            ConfigError::InvalidSalt(_) => ConfigErrorKind::InvalidSalt,
            ConfigError::InvalidUnicode { .. } => ConfigErrorKind::InvalidUnicode,
            ConfigError::InvalidSecurityLimit { source, .. } => ConfigErrorKind::InvalidSecurityLimit(
                *source,
            ),
            ConfigError::InvalidPresets(_) => ConfigErrorKind::InvalidPresets,
            ConfigError::InvalidDefaultFormat { .. } => ConfigErrorKind::InvalidDefaultFormat,
            ConfigError::InvalidWorkerCount { .. } => ConfigErrorKind::InvalidWorkerCount,
            ConfigError::ZeroWorkers => ConfigErrorKind::ZeroWorkers,
            ConfigError::WorkerCountTooLarge { .. } => ConfigErrorKind::WorkerCountTooLarge,
            ConfigError::InvalidValue { .. } => ConfigErrorKind::InvalidValue,
        }
    }

    /// The setting the error names, where it names one.
    pub open spec fn setting_name(&self) -> Option<Seq<char>> {
        match self {
            ConfigError::InvalidUnicode { name } => Some(name@),
            ConfigError::InvalidSecurityLimit { name, .. } => Some(name@),
            ConfigError::InvalidDefaultFormat { name, .. } => Some(name@),
            ConfigError::InvalidWorkerCount { name, .. } => Some(name@),
            ConfigError::InvalidValue { name, .. } => Some(name@),
            _ => None,
        }
    }

    /// The refused text the error carries, where it carries one.
    pub open spec fn setting_text(&self) -> Option<Seq<char>> {
        match self {
            ConfigError::InvalidSecurityLimit { value, .. } => Some(value@),
            ConfigError::InvalidDefaultFormat { value, .. } => Some(value@),
            ConfigError::InvalidWorkerCount { value, .. } => Some(value@),
            ConfigError::InvalidValue { value, .. } => Some(value@),
            _ => None,
        }
    }
}

/// The number of image-processing workers: twice the CPUs.
pub open spec fn automatic_workers(cpus: nat) -> nat {
    let c = if cpus < 1 {
        1
    } else {
        cpus
    };
    if 2 * c > usize::MAX {
        usize::MAX as nat
    } else {
        2 * c
    }
}

/// The automatic worker count for a machine with `cpus` CPUs.
pub fn default_worker_count(cpus: usize) -> (r: usize)
    ensures
        r == automatic_workers(cpus as nat),
{
    let c = if cpus < 1 {
        1
    } else {
        cpus
    };
    if c > usize::MAX / 2 {
        usize::MAX
    } else {
        c * 2
    }
}

/// The automatic worker count for this machine.
pub fn machine_worker_count() -> (r: usize)
    ensures
        r >= 2 || r == usize::MAX,
{
    default_worker_count(available_cpus())
}

/// Whether a worker count is above the automatic one for `cpus` CPUs, which
/// is worth a warning about memory headroom.
pub fn worker_count_exceeds_automatic(workers: usize, cpus: usize) -> (r: bool)
    ensures
        r == (workers > automatic_workers(cpus as nat)),
{
    workers > default_worker_count(cpus)
}

/// Whether a worker count is above the automatic one for this machine.
pub fn worker_count_is_high(workers: usize) -> (r: bool)
    ensures
        r ==> workers > 2,
{
    worker_count_exceeds_automatic(workers, available_cpus())
}

/// Refuses a worker count the semaphore cannot hold: zero, or more permits
/// than tokio's semaphore allows.
pub fn validate_worker_count(workers: usize) -> (r: Result<(), ConfigError>)
    ensures
        workers == 0 ==> r matches Err(ConfigError::ZeroWorkers),
        workers > usize::MAX >> 3 ==> (r matches Err(ConfigError::WorkerCountTooLarge { value, max })
            && value == workers && max == usize::MAX >> 3),
        0 < workers <= usize::MAX >> 3 ==> r is Ok,
{
    if workers == 0 {
        return Err(ConfigError::ZeroWorkers);
    }
    let max = semaphore_max_permits();
    if workers > max {
        return Err(ConfigError::WorkerCountTooLarge { value: workers, max });
    }
    Ok(())
}

/// The server's configuration.
#[derive(Debug)]
pub struct Config {
    pub workers: usize,
    pub bind_address: String,
    pub prometheus_bind_address: Option<String>,
    pub timeout: u64,
    pub key: Vec<u8>,
    pub salt: Vec<u8>,
    pub allow_unsigned: bool,
    pub allow_security_options: bool,
    pub max_src_file_size: Option<MaxSourceFileSize>,
    pub max_src_resolution: Option<MaxSourceResolution>,
    pub max_result_dimension: Option<MaxResultDimension>,
    pub allowed_mime_types: Option<Vec<String>>,
    pub download_timeout: u64,
    pub secret: Option<String>,
    pub presets: StringMap<Vec<ProcessingOption>>,
    pub only_presets: bool,
    pub watermark_path: Option<String>,
    pub default_format: DefaultOutputFormat,
    pub rate_limit_per_minute: Option<u32>,
    /// Ceiling on how many frames of an animated source are decoded.
    pub max_animation_frames: Option<MaxAnimationFrames>,
    /// Ceiling on the pixel count of a single animation frame.
    pub max_animation_frame_resolution: Option<MaxAnimationFrameResolution>,
    /// Starting values for the processing options a URL may override.
    pub option_defaults: OptionDefaults,
    /// `max-age` for the `Cache-Control` header, in seconds.
    pub ttl: Option<u64>,
    /// Send the source's own `Cache-Control` instead of the configured TTL.
    pub cache_control_passthrough: bool,
    /// Emit an `ETag` and honour `If-None-Match`.
    pub use_etag: bool,
    /// Pass the source's `Last-Modified` through and honour `If-Modified-Since`.
    pub last_modified_enabled: bool,
    /// Emit a `Link: <source>; rel="canonical"` header.
    pub set_canonical_header: bool,
    /// Value for `Access-Control-Allow-Origin`, when cross-origin use is wanted.
    pub allow_origin: Option<String>,
    /// Path segment every route is mounted under.
    pub path_prefix: String,
    /// Path the liveness endpoint answers on.
    pub health_check_path: String,
    /// Return the underlying error text to the client.
    pub development_errors_mode: bool,
    /// Emit `X-Origin-*` headers describing the source image.
    pub enable_debug_headers: bool,
    /// `User-Agent` sent when fetching a source image.
    pub user_agent: String,
    /// How many redirects a source fetch may follow.
    pub max_redirects: usize,
    /// Serve WebP when the client's `Accept` says it can read it.
    pub enable_webp_detection: bool,
    /// Serve WebP to a client that accepts it even when the URL asks otherwise.
    pub enforce_webp: bool,
    /// Serve AVIF when the client's `Accept` says it can read it.
    pub enable_avif_detection: bool,
    /// Serve AVIF to a client that accepts it even when the URL asks otherwise.
    pub enforce_avif: bool,
    /// Honour the `Width` and `DPR` client hints.
    pub enable_client_hints: bool,
}

/// What a configuration holds.
pub struct ConfigView {
    pub workers: nat,
    pub bind_address: Seq<char>,
    pub prometheus_bind_address: Option<Seq<char>>,
    pub timeout: u64,
    pub key: Seq<u8>,
    pub salt: Seq<u8>,
    pub allow_unsigned: bool,
    pub allow_security_options: bool,
    pub max_src_file_size: Option<nat>,
    pub max_src_resolution: Option<nat>,
    pub max_result_dimension: Option<nat>,
    pub allowed_mime_types: Option<Seq<Seq<char>>>,
    pub download_timeout: u64,
    pub secret: Option<Seq<char>>,
    pub presets: Map<Seq<char>, Seq<Directive>>,
    pub only_presets: bool,
    pub watermark_path: Option<Seq<char>>,
    pub default_format: DefaultOutputFormat,
    pub rate_limit_per_minute: Option<u32>,
    pub max_animation_frames: Option<nat>,
    pub max_animation_frame_resolution: Option<nat>,
    pub option_defaults: OptionDefaults,
    pub ttl: Option<u64>,
    pub cache_control_passthrough: bool,
    pub use_etag: bool,
    pub last_modified_enabled: bool,
    pub set_canonical_header: bool,
    pub allow_origin: Option<Seq<char>>,
    pub path_prefix: Seq<char>,
    pub health_check_path: Seq<char>,
    pub development_errors_mode: bool,
    pub enable_debug_headers: bool,
    pub user_agent: Seq<char>,
    pub max_redirects: usize,
    pub enable_webp_detection: bool,
    pub enforce_webp: bool,
    pub enable_avif_detection: bool,
    pub enforce_avif: bool,
    pub enable_client_hints: bool,
}

/// The characters of an optional string.
pub open spec fn text_opt(s: Option<String>) -> Option<Seq<char>> {
    match s {
        Some(t) => Some(t@),
        None => None,
    }
}

impl View for Config {
    type V = ConfigView;

    open spec fn view(&self) -> ConfigView {
        ConfigView {
            workers: self.workers as nat,
            bind_address: self.bind_address@,
            prometheus_bind_address: text_opt(self.prometheus_bind_address),
            timeout: self.timeout,
            key: self.key@,
            salt: self.salt@,
            allow_unsigned: self.allow_unsigned,
            allow_security_options: self.allow_security_options,
            max_src_file_size: match self.max_src_file_size {
                Some(m) => Some(m.spec_get()),
                None => None,
            },
            max_src_resolution: match self.max_src_resolution {
                Some(m) => Some(m.spec_pixels()),
                None => None,
            },
            max_result_dimension: match self.max_result_dimension {
                Some(m) => Some(m.spec_get()),
                None => None,
            },
            allowed_mime_types: match self.allowed_mime_types {
                Some(v) => Some(arg_views(v@)),
                None => None,
            },
            download_timeout: self.download_timeout,
            secret: text_opt(self.secret),
            presets: preset_table(self.presets),
            only_presets: self.only_presets,
            watermark_path: text_opt(self.watermark_path),
            default_format: self.default_format,
            rate_limit_per_minute: self.rate_limit_per_minute,
            max_animation_frames: match self.max_animation_frames {
                Some(m) => Some(m.spec_get()),
                None => None,
            },
            max_animation_frame_resolution: match self.max_animation_frame_resolution {
                Some(m) => Some(m.spec_pixels()),
                None => None,
            },
            option_defaults: self.option_defaults,
            ttl: self.ttl,
            cache_control_passthrough: self.cache_control_passthrough,
            use_etag: self.use_etag,
            last_modified_enabled: self.last_modified_enabled,
            set_canonical_header: self.set_canonical_header,
            allow_origin: text_opt(self.allow_origin),
            path_prefix: self.path_prefix@,
            health_check_path: self.health_check_path@,
            development_errors_mode: self.development_errors_mode,
            enable_debug_headers: self.enable_debug_headers,
            user_agent: self.user_agent@,
            max_redirects: self.max_redirects,
            enable_webp_detection: self.enable_webp_detection,
            enforce_webp: self.enforce_webp,
            enable_avif_detection: self.enable_avif_detection,
            enforce_avif: self.enforce_avif,
            enable_client_hints: self.enable_client_hints,
        }
    }
}

/// The configuration a key, a salt and a worker count give, everything else
/// at its default.
pub open spec fn config_defaults(key: Seq<u8>, salt: Seq<u8>, workers: nat) -> ConfigView {
    ConfigView {
        workers,
        bind_address: "0.0.0.0:3000"@,
        prometheus_bind_address: None,
        timeout: 30,
        key,
        salt,
        allow_unsigned: false,
        allow_security_options: false,
        max_src_file_size: None,
        max_src_resolution: None,
        max_result_dimension: None,
        allowed_mime_types: None,
        download_timeout: 10,
        secret: None,
        presets: Map::empty(),
        only_presets: false,
        watermark_path: None,
        default_format: DefaultOutputFormat::Source,
        rate_limit_per_minute: None,
        max_animation_frames: None,
        max_animation_frame_resolution: None,
        option_defaults: OptionDefaults::spec_default(),
        ttl: None,
        cache_control_passthrough: false,
        use_etag: false,
        last_modified_enabled: false,
        set_canonical_header: false,
        allow_origin: None,
        path_prefix: seq![],
        health_check_path: "/health"@,
        development_errors_mode: false,
        enable_debug_headers: false,
        user_agent: DEFAULT_USER_AGENT@,
        max_redirects: 10,
        enable_webp_detection: false,
        enforce_webp: false,
        enable_avif_detection: false,
        enforce_avif: false,
        enable_client_hints: false,
    }
}

impl Config {
    /// A configuration with default values, the given key and salt, and
    /// `workers` image-processing workers.
    pub fn with_workers(key: Vec<u8>, salt: Vec<u8>, workers: usize) -> (r: Self)
        ensures
            r@ == config_defaults(key@, salt@, workers as nat),
    {
        let r = Config {
            workers,
            bind_address: "0.0.0.0:3000".to_owned(),
            prometheus_bind_address: None,
            timeout: 30,
            key,
            salt,
            allow_unsigned: false,
            allow_security_options: false,
            max_src_file_size: None,
            max_src_resolution: None,
            max_result_dimension: None,
            allowed_mime_types: None,
            download_timeout: 10,
            secret: None,
            presets: StringMap::new(),
            only_presets: false,
            watermark_path: None,
            default_format: DefaultOutputFormat::Source,
            rate_limit_per_minute: None,
            max_animation_frames: None,
            max_animation_frame_resolution: None,
            option_defaults: OptionDefaults::default(),
            ttl: None,
            cache_control_passthrough: false,
            use_etag: false,
            last_modified_enabled: false,
            set_canonical_header: false,
            allow_origin: None,
            path_prefix: String::new(),
            health_check_path: "/health".to_owned(),
            development_errors_mode: false,
            enable_debug_headers: false,
            user_agent: DEFAULT_USER_AGENT.to_owned(),
            max_redirects: 10,
            enable_webp_detection: false,
            enforce_webp: false,
            enable_avif_detection: false,
            enforce_avif: false,
            enable_client_hints: false,
        };
        assert(preset_table(r.presets) =~= Map::<Seq<char>, Seq<Directive>>::empty());
        r
    }

    /// A configuration with default values using raw key and salt bytes.
    pub fn new(key: Vec<u8>, salt: Vec<u8>) -> (r: Self)
        ensures
            r.key@ == key@,
            r.salt@ == salt@,
            exists|w: nat| r@ == config_defaults(key@, salt@, w),
    {
        let workers = machine_worker_count();
        Self::with_workers(key, salt, workers)
    }

    /// The processing-option defaults a request starts from.
    pub fn option_defaults(&self) -> (r: OptionDefaults)
        ensures
            r == self.option_defaults,
    {
        self.option_defaults
    }

    /// A configuration from hexadecimal key and salt strings.
    pub fn with_hex_keys(key_hex: &str, salt_hex: &str) -> (r: Result<Self, ConfigError>)
        ensures
            match (hex_decoded(key_hex.spec_bytes()), hex_decoded(salt_hex.spec_bytes())) {
                (None, _) => r matches Err(e) && e.kind() == ConfigErrorKind::InvalidKey,
                (Some(_), None) => r matches Err(e) && e.kind() == ConfigErrorKind::InvalidSalt,
                (Some(k), Some(s)) => r matches Ok(c) && exists|w: nat|
                    c@ == config_defaults(k, s, w),
            },
    {
        let key = match decode_hex(key_hex) {
            Ok(k) => k,
            Err(e) => {
                return Err(ConfigError::InvalidKey(e));
            },
        };
        let salt = match decode_hex(salt_hex) {
            Ok(s) => s,
            Err(e) => {
                return Err(ConfigError::InvalidSalt(e));
            },
        };
        Ok(Self::new(key, salt))
    }
}

/// The setting `name` as text, if present.
pub open spec fn var(vars: Map<Seq<char>, Seq<char>>, name: &'static str) -> Option<Seq<char>> {
    setting(vars, name@)
}

/// A setting's text, or empty when it is absent.
pub open spec fn var_or_empty(vars: Map<Seq<char>, Seq<char>>, name: &'static str) -> Seq<char> {
    match var(vars, name) {
        Some(v) => v,
        None => seq![],
    }
}

/// Whether a setting is present and, in Unicode lowercase, exactly `true`.
pub open spec fn lower_is_true(vars: Map<Seq<char>, Seq<char>>, name: &'static str) -> bool {
    crate::processing::save::name_lower(var_or_empty(vars, name)) == "true"@
}

/// An unsigned setting read without trimming, or `default` when it is absent
/// or unreadable.
pub open spec fn lenient_uint(vars: Map<Seq<char>, Seq<char>>, name: &'static str, max: nat, default: nat) -> nat {
    match var(vars, name) {
        Some(v) => match parse_unsigned(v, max) {
            Some(n) => n,
            None => default,
        },
        None => default,
    }
}

/// How a security limit is written.
#[derive(Debug, Clone, Copy, PartialEq, Eq, Structural)]
pub enum LimitForm {
    /// A positive byte count.
    Bytes,
    /// A positive pixel or frame count.
    Count,
    /// A positive number of megapixels.
    Megapixels,
}

/// What a limit written in `form` spelled `s` gives.
pub open spec fn read_limit(form: LimitForm, s: Seq<char>) -> Result<nat, SecurityLimitError> {
    match form {
        LimitForm::Bytes => file_size_from_text(s),
        LimitForm::Count => dimension_from_text(s),
        LimitForm::Megapixels => resolution_from_text(s),
    }
}

/// A security limit setting: absent, or what the limit's own parser makes of
/// it.
pub open spec fn limit_setting(v: Option<Seq<char>>, form: LimitForm) -> Result<Option<nat>, SecurityLimitError> {
    match v {
        None => Ok(None),
        Some(x) => match read_limit(form, x) {
            Ok(n) => Ok(Some(n)),
            Err(e) => Err(e),
        },
    }
}

/// A trimmed unsigned setting: absent, a number no larger than `max`, or
/// refused.
pub open spec fn strict_uint(v: Option<Seq<char>>, max: nat) -> Result<Option<nat>, ()> {
    match v {
        None => Ok(None),
        Some(x) => match uint_setting(x, max) {
            Some(n) => Ok(Some(n)),
            None => Err(()),
        },
    }
}

/// A setting that is present and not blank.
pub open spec fn non_blank(v: Option<Seq<char>>) -> Option<Seq<char>> {
    match v {
        Some(x) => if trim(x).len() == 0 {
            None
        } else {
            Some(x)
        },
        None => None,
    }
}

/// The worker count a setting asks for on a machine with `cpus` CPUs; zero
/// or absent means the automatic count.
pub open spec fn workers_setting(v: Option<Seq<char>>, cpus: nat) -> Option<nat> {
    match v {
        None => Some(automatic_workers(cpus)),
        Some(x) => match parse_unsigned(x, usize::MAX as nat) {
            None => None,
            Some(n) => Some(
                if n == 0 {
                    automatic_workers(cpus)
                } else {
                    n
                },
            ),
        },
    }
}

/// The first reason the settings are refused, in the order they are read, or
/// `None` when they are all accepted.
pub open spec fn config_error(vars: Map<Seq<char>, Seq<char>>, cpus: nat) -> Option<ConfigErrorKind> {
    let quality = strict_uint(var(vars, constants::ENV_QUALITY), u8::MAX as nat);
    if hex_decoded(crate::processing::options::error::utf8_bytes(var_or_empty(vars, constants::ENV_KEY)))
        is None {
        Some(ConfigErrorKind::InvalidKey)
    } else if hex_decoded(
        crate::processing::options::error::utf8_bytes(var_or_empty(vars, constants::ENV_SALT)),
    ) is None {
        Some(ConfigErrorKind::InvalidSalt)
    } else if workers_setting(var(vars, constants::ENV_WORKERS), cpus) is None {
        Some(ConfigErrorKind::InvalidWorkerCount)
    } else if limit_setting(var(vars, constants::ENV_MAX_SRC_FILE_SIZE), LimitForm::Bytes)
        is Err {
        Some(
            ConfigErrorKind::InvalidSecurityLimit(
                limit_setting(var(vars, constants::ENV_MAX_SRC_FILE_SIZE), LimitForm::Bytes)->Err_0,
            ),
        )
    } else if limit_setting(var(vars, constants::ENV_MAX_SRC_RESOLUTION), LimitForm::Megapixels)
        is Err {
        Some(
            ConfigErrorKind::InvalidSecurityLimit(
                limit_setting(var(vars, constants::ENV_MAX_SRC_RESOLUTION), LimitForm::Megapixels)->Err_0,
            ),
        )
    } else if limit_setting(var(vars, constants::ENV_MAX_RESULT_DIMENSION), LimitForm::Count)
        is Err {
        Some(
            ConfigErrorKind::InvalidSecurityLimit(
                limit_setting(var(vars, constants::ENV_MAX_RESULT_DIMENSION), LimitForm::Count)->Err_0,
            ),
        )
    } else if presets_from(split_char(var_or_empty(vars, constants::ENV_PRESETS), ',')) is Err {
        Some(ConfigErrorKind::InvalidPresets)
    } else if var(vars, constants::ENV_DEFAULT_FORMAT) is Some && default_format_of(
        var(vars, constants::ENV_DEFAULT_FORMAT)->0,
    ) is None {
        Some(ConfigErrorKind::InvalidDefaultFormat)
    } else if limit_setting(var(vars, constants::ENV_MAX_ANIMATION_FRAMES), LimitForm::Count)
        is Err {
        Some(
            ConfigErrorKind::InvalidSecurityLimit(
                limit_setting(var(vars, constants::ENV_MAX_ANIMATION_FRAMES), LimitForm::Count)->Err_0,
            ),
        )
    } else if limit_setting(
        var(vars, constants::ENV_MAX_ANIMATION_FRAME_RESOLUTION),
        LimitForm::Megapixels,
    ) is Err {
        Some(
            ConfigErrorKind::InvalidSecurityLimit(
                limit_setting(
                    var(vars, constants::ENV_MAX_ANIMATION_FRAME_RESOLUTION),
                    LimitForm::Megapixels,
                )->Err_0,
            ),
        )
    } else if quality is Err {
        Some(ConfigErrorKind::InvalidValue)
    } else if strict_uint(var(vars, constants::ENV_TTL), u64::MAX as nat) is Err {
        Some(ConfigErrorKind::InvalidValue)
    } else if strict_uint(var(vars, constants::ENV_MAX_REDIRECTS), usize::MAX as nat) is Err {
        Some(ConfigErrorKind::InvalidValue)
    } else {
        None
    }
}

/// The setting the first refusal concerns, where the error names one: the
/// key, the salt and the presets are refused without a setting's name.
pub open spec fn config_error_setting(vars: Map<Seq<char>, Seq<char>>, cpus: nat) -> Option<Seq<char>> {
    if hex_decoded(crate::processing::options::error::utf8_bytes(var_or_empty(vars, constants::ENV_KEY))) is None
        || hex_decoded(crate::processing::options::error::utf8_bytes(var_or_empty(vars, constants::ENV_SALT)))
        is None {
        None
    } else if workers_setting(var(vars, constants::ENV_WORKERS), cpus) is None {
        Some(constants::ENV_WORKERS@)
    } else if limit_setting(var(vars, constants::ENV_MAX_SRC_FILE_SIZE), LimitForm::Bytes) is Err {
        Some(constants::ENV_MAX_SRC_FILE_SIZE@)
    } else if limit_setting(var(vars, constants::ENV_MAX_SRC_RESOLUTION), LimitForm::Megapixels) is Err {
        Some(constants::ENV_MAX_SRC_RESOLUTION@)
    } else if limit_setting(var(vars, constants::ENV_MAX_RESULT_DIMENSION), LimitForm::Count) is Err {
        Some(constants::ENV_MAX_RESULT_DIMENSION@)
    } else if presets_from(split_char(var_or_empty(vars, constants::ENV_PRESETS), ',')) is Err {
        None
    } else if var(vars, constants::ENV_DEFAULT_FORMAT) is Some && default_format_of(
        var(vars, constants::ENV_DEFAULT_FORMAT)->0,
    ) is None {
        Some(constants::ENV_DEFAULT_FORMAT@)
    } else if limit_setting(var(vars, constants::ENV_MAX_ANIMATION_FRAMES), LimitForm::Count) is Err {
        Some(constants::ENV_MAX_ANIMATION_FRAMES@)
    } else if limit_setting(var(vars, constants::ENV_MAX_ANIMATION_FRAME_RESOLUTION), LimitForm::Megapixels)
        is Err {
        Some(constants::ENV_MAX_ANIMATION_FRAME_RESOLUTION@)
    } else if strict_uint(var(vars, constants::ENV_QUALITY), u8::MAX as nat) is Err {
        Some(constants::ENV_QUALITY@)
    } else if strict_uint(var(vars, constants::ENV_TTL), u64::MAX as nat) is Err {
        Some(constants::ENV_TTL@)
    } else if strict_uint(var(vars, constants::ENV_MAX_REDIRECTS), usize::MAX as nat) is Err {
        Some(constants::ENV_MAX_REDIRECTS@)
    } else {
        None
    }
}

/// `v` clamped into 1..=100.
pub open spec fn quality_clamp(v: nat) -> u8 {
    if v < 1 {
        1
    } else if v > 100 {
        100
    } else {
        v as u8
    }
}

/// The configuration accepted settings give.
pub open spec fn config_from(vars: Map<Seq<char>, Seq<char>>, cpus: nat) -> ConfigView {
    ConfigView {
        workers: workers_setting(var(vars, constants::ENV_WORKERS), cpus)->0,
        bind_address: bind_address_of(
            match var(vars, constants::ENV_BIND) {
                Some(v) => v,
                None => "0.0.0.0:3000"@,
            },
        ),
        prometheus_bind_address: match var(vars, constants::ENV_PROMETHEUS_BIND) {
            Some(v) => Some(bind_address_of(v)),
            None => None,
        },
        timeout: lenient_uint(vars, constants::ENV_TIMEOUT, u64::MAX as nat, 30) as u64,
        key: hex_decoded(
            crate::processing::options::error::utf8_bytes(var_or_empty(vars, constants::ENV_KEY)),
        )->0,
        salt: hex_decoded(
            crate::processing::options::error::utf8_bytes(var_or_empty(vars, constants::ENV_SALT)),
        )->0,
        allow_unsigned: lower_is_true(vars, constants::ENV_ALLOW_UNSIGNED),
        allow_security_options: lower_is_true(vars, constants::ENV_ALLOW_SECURITY_OPTIONS),
        max_src_file_size: limit_setting(var(vars, constants::ENV_MAX_SRC_FILE_SIZE), LimitForm::Bytes)->Ok_0,
        max_src_resolution: limit_setting(var(vars, constants::ENV_MAX_SRC_RESOLUTION), LimitForm::Megapixels)->Ok_0,
        max_result_dimension: limit_setting(var(vars, constants::ENV_MAX_RESULT_DIMENSION), LimitForm::Count)->Ok_0,
        allowed_mime_types: match var(vars, constants::ENV_ALLOWED_MIME_TYPES) {
            Some(v) => Some(split_char(v, ',')),
            None => None,
        },
        download_timeout: lenient_uint(vars, constants::ENV_DOWNLOAD_TIMEOUT, u64::MAX as nat, 10) as u64,
        secret: var(vars, constants::ENV_SECRET),
        presets: presets_from(split_char(var_or_empty(vars, constants::ENV_PRESETS), ','))->Ok_0,
        only_presets: lower_is_true(vars, constants::ENV_ONLY_PRESETS),
        watermark_path: var(vars, constants::ENV_WATERMARK_PATH),
        default_format: match var(vars, constants::ENV_DEFAULT_FORMAT) {
            Some(v) => default_format_of(v)->0,
            None => DefaultOutputFormat::Source,
        },
        rate_limit_per_minute: match var(vars, constants::ENV_RATE_LIMIT_PER_MINUTE) {
            Some(v) => match parse_unsigned(v, u32::MAX as nat) {
                Some(n) => Some(n as u32),
                None => None,
            },
            None => None,
        },
        max_animation_frames: limit_setting(var(vars, constants::ENV_MAX_ANIMATION_FRAMES), LimitForm::Count)->Ok_0,
        max_animation_frame_resolution: limit_setting(var(vars, constants::ENV_MAX_ANIMATION_FRAME_RESOLUTION), LimitForm::Megapixels)->Ok_0,
        option_defaults: OptionDefaults {
            auto_rotate: bool_setting(var(vars, constants::ENV_AUTO_ROTATE), true),
            strip_metadata: bool_setting(var(vars, constants::ENV_STRIP_METADATA), false),
            keep_copyright: bool_setting(var(vars, constants::ENV_KEEP_COPYRIGHT), false),
            strip_color_profile: bool_setting(var(vars, constants::ENV_STRIP_COLOR_PROFILE), false),
            preserve_hdr: bool_setting(var(vars, constants::ENV_PRESERVE_HDR), false),
            enforce_thumbnail: bool_setting(var(vars, constants::ENV_ENFORCE_THUMBNAIL), false),
            return_attachment: bool_setting(var(vars, constants::ENV_RETURN_ATTACHMENT), false),
            quality: match strict_uint(var(vars, constants::ENV_QUALITY), u8::MAX as nat)->Ok_0 {
                Some(q) => Some(quality_clamp(q)),
                None => None,
            },
        },
        ttl: match strict_uint(var(vars, constants::ENV_TTL), u64::MAX as nat)->Ok_0 {
            Some(n) => Some(n as u64),
            None => None,
        },
        cache_control_passthrough: bool_setting(var(vars, constants::ENV_CACHE_CONTROL_PASSTHROUGH), false),
        use_etag: bool_setting(var(vars, constants::ENV_USE_ETAG), false),
        last_modified_enabled: bool_setting(var(vars, constants::ENV_LAST_MODIFIED_ENABLED), false),
        set_canonical_header: bool_setting(var(vars, constants::ENV_SET_CANONICAL_HEADER), false),
        allow_origin: non_blank(var(vars, constants::ENV_ALLOW_ORIGIN)),
        path_prefix: path_prefix_of(var(vars, constants::ENV_PATH_PREFIX)),
        health_check_path: health_check_path_of(var(vars, constants::ENV_HEALTH_CHECK_PATH)),
        development_errors_mode: bool_setting(var(vars, constants::ENV_DEVELOPMENT_ERRORS_MODE), false),
        enable_debug_headers: bool_setting(var(vars, constants::ENV_ENABLE_DEBUG_HEADERS), false),
        user_agent: match non_blank(var(vars, constants::ENV_USER_AGENT)) {
            Some(v) => v,
            None => DEFAULT_USER_AGENT@,
        },
        max_redirects: match strict_uint(var(vars, constants::ENV_MAX_REDIRECTS), usize::MAX as nat)->Ok_0 {
            Some(n) => n as usize,
            None => 10,
        },
        enable_webp_detection: bool_setting(var(vars, constants::ENV_ENABLE_WEBP_DETECTION), false),
        enforce_webp: bool_setting(var(vars, constants::ENV_ENFORCE_WEBP), false),
        enable_avif_detection: bool_setting(var(vars, constants::ENV_ENABLE_AVIF_DETECTION), false),
        enforce_avif: bool_setting(var(vars, constants::ENV_ENFORCE_AVIF), false),
        enable_client_hints: bool_setting(var(vars, constants::ENV_ENABLE_CLIENT_HINTS), false),
    }
}

/// A switch: on when its variable holds a true value (`1`, `t`, `true`, `yes`
/// or `on`, trimmed, in any ASCII case), off when it holds anything else, and
/// `default` when it is unset.
pub open spec fn switched(vars: Map<Seq<char>, Seq<char>>, name: Seq<char>, default: bool) -> bool {
    if vars.contains_key(name) {
        truthy(vars[name])
    } else {
        default
    }
}

/// Each switch of the configuration is read from its own variable: it is what
/// that variable says (or its default when unset), and setting any other
/// variable leaves it as it is. The three strict switches are on only when
/// their variable is, in lowercase, exactly `true`.
pub proof fn lemma_switches_read_their_own_settings(
    vars: Map<Seq<char>, Seq<char>>,
    cpus: nat,
    other: Seq<char>,
    text: Seq<char>,
)
    ensures
        ({
            let c = config_from(vars, cpus);
            &&& c.enable_webp_detection == switched(vars, constants::ENV_ENABLE_WEBP_DETECTION@, false)
            &&& c.enforce_webp == switched(vars, constants::ENV_ENFORCE_WEBP@, false)
            &&& c.enable_avif_detection == switched(vars, constants::ENV_ENABLE_AVIF_DETECTION@, false)
            &&& c.enforce_avif == switched(vars, constants::ENV_ENFORCE_AVIF@, false)
            &&& c.enable_client_hints == switched(vars, constants::ENV_ENABLE_CLIENT_HINTS@, false)
            &&& c.cache_control_passthrough == switched(vars, constants::ENV_CACHE_CONTROL_PASSTHROUGH@, false)
            &&& c.use_etag == switched(vars, constants::ENV_USE_ETAG@, false)
            &&& c.last_modified_enabled == switched(vars, constants::ENV_LAST_MODIFIED_ENABLED@, false)
            &&& c.set_canonical_header == switched(vars, constants::ENV_SET_CANONICAL_HEADER@, false)
            &&& c.development_errors_mode == switched(vars, constants::ENV_DEVELOPMENT_ERRORS_MODE@, false)
            &&& c.enable_debug_headers == switched(vars, constants::ENV_ENABLE_DEBUG_HEADERS@, false)
            &&& c.option_defaults.auto_rotate == switched(vars, constants::ENV_AUTO_ROTATE@, true)
            &&& c.option_defaults.strip_metadata == switched(vars, constants::ENV_STRIP_METADATA@, false)
            &&& c.option_defaults.keep_copyright == switched(vars, constants::ENV_KEEP_COPYRIGHT@, false)
            &&& c.option_defaults.strip_color_profile == switched(vars, constants::ENV_STRIP_COLOR_PROFILE@, false)
            &&& c.option_defaults.preserve_hdr == switched(vars, constants::ENV_PRESERVE_HDR@, false)
            &&& c.option_defaults.enforce_thumbnail == switched(vars, constants::ENV_ENFORCE_THUMBNAIL@, false)
            &&& c.option_defaults.return_attachment == switched(vars, constants::ENV_RETURN_ATTACHMENT@, false)
            &&& c.allow_unsigned == (vars.contains_key(constants::ENV_ALLOW_UNSIGNED@) && crate::processing::save::name_lower(vars[constants::ENV_ALLOW_UNSIGNED@]) == "true"@)
            &&& c.allow_security_options == (vars.contains_key(constants::ENV_ALLOW_SECURITY_OPTIONS@) && crate::processing::save::name_lower(vars[constants::ENV_ALLOW_SECURITY_OPTIONS@]) == "true"@)
            &&& c.only_presets == (vars.contains_key(constants::ENV_ONLY_PRESETS@) && crate::processing::save::name_lower(vars[constants::ENV_ONLY_PRESETS@]) == "true"@)
        }),
        ({
            let c = config_from(vars, cpus);
            let c2 = config_from(vars.insert(other, text), cpus);
            &&& other != constants::ENV_ENABLE_WEBP_DETECTION@ ==> c2.enable_webp_detection == c.enable_webp_detection
            &&& other != constants::ENV_ENFORCE_WEBP@ ==> c2.enforce_webp == c.enforce_webp
            &&& other != constants::ENV_ENABLE_AVIF_DETECTION@ ==> c2.enable_avif_detection == c.enable_avif_detection
            &&& other != constants::ENV_ENFORCE_AVIF@ ==> c2.enforce_avif == c.enforce_avif
            &&& other != constants::ENV_ENABLE_CLIENT_HINTS@ ==> c2.enable_client_hints == c.enable_client_hints
            &&& other != constants::ENV_CACHE_CONTROL_PASSTHROUGH@ ==> c2.cache_control_passthrough == c.cache_control_passthrough
            &&& other != constants::ENV_USE_ETAG@ ==> c2.use_etag == c.use_etag
            &&& other != constants::ENV_LAST_MODIFIED_ENABLED@ ==> c2.last_modified_enabled == c.last_modified_enabled
            &&& other != constants::ENV_SET_CANONICAL_HEADER@ ==> c2.set_canonical_header == c.set_canonical_header
            &&& other != constants::ENV_DEVELOPMENT_ERRORS_MODE@ ==> c2.development_errors_mode == c.development_errors_mode
            &&& other != constants::ENV_ENABLE_DEBUG_HEADERS@ ==> c2.enable_debug_headers == c.enable_debug_headers
            &&& other != constants::ENV_AUTO_ROTATE@ ==> c2.option_defaults.auto_rotate == c.option_defaults.auto_rotate
            &&& other != constants::ENV_STRIP_METADATA@ ==> c2.option_defaults.strip_metadata == c.option_defaults.strip_metadata
            &&& other != constants::ENV_KEEP_COPYRIGHT@ ==> c2.option_defaults.keep_copyright == c.option_defaults.keep_copyright
            &&& other != constants::ENV_STRIP_COLOR_PROFILE@ ==> c2.option_defaults.strip_color_profile == c.option_defaults.strip_color_profile
            &&& other != constants::ENV_PRESERVE_HDR@ ==> c2.option_defaults.preserve_hdr == c.option_defaults.preserve_hdr
            &&& other != constants::ENV_ENFORCE_THUMBNAIL@ ==> c2.option_defaults.enforce_thumbnail == c.option_defaults.enforce_thumbnail
            &&& other != constants::ENV_RETURN_ATTACHMENT@ ==> c2.option_defaults.return_attachment == c.option_defaults.return_attachment
            &&& other != constants::ENV_ALLOW_UNSIGNED@ ==> c2.allow_unsigned == c.allow_unsigned
            &&& other != constants::ENV_ALLOW_SECURITY_OPTIONS@ ==> c2.allow_security_options == c.allow_security_options
            &&& other != constants::ENV_ONLY_PRESETS@ ==> c2.only_presets == c.only_presets
        }),
{
    reveal_strlit("true");
    assert(crate::processing::save::name_lower(Seq::<char>::empty()) =~= Seq::<char>::empty());
}

/// Whether `r` is what reading the settings on a machine with `cpus` CPUs
/// gives.
pub open spec fn config_outcome(vars: Map<Seq<char>, Seq<char>>, cpus: nat, r: Result<Config, ConfigError>) -> bool {
    match config_error(vars, cpus) {
        Some(k) => r matches Err(e) && e.kind() == k && e.setting_name() == config_error_setting(vars, cpus)
            && match e.setting_name() {
            Some(n) => e.setting_text() == setting(vars, n),
            None => true,
        },
        None => r matches Ok(c) && c@ == config_from(vars, cpus),
    }
}

fn var_text(vars: &StringMap<String>, name: &'static str) -> (r: String)
    ensures
        r@ == var_or_empty(settings_view(*vars), name),
{
    match optional_var(vars, name) {
        Some(v) => v,
        None => String::new(),
    }
}

fn lower_true(vars: &StringMap<String>, name: &'static str) -> (r: bool)
    ensures
        r == lower_is_true(settings_view(*vars), name),
{
    let v = var_text(vars, name);
    let l = crate::text::to_lowercase(v.as_str());
    let c = chars_of(l.as_str());
    is(c.as_slice(), "true")
}

fn lenient(vars: &StringMap<String>, name: &'static str, max: u64, default: u64) -> (r: u64)
    requires
        default <= max,
    ensures
        r == lenient_uint(settings_view(*vars), name, max as nat, default as nat),
{
    match optional_var(vars, name) {
        Some(v) => {
            let c = chars_of(v.as_str());
            match parse_uint(c.as_slice(), max) {
                Some(n) => n,
                None => default,
            }
        },
        None => default,
    }
}

fn strict(vars: &StringMap<String>, name: &'static str, max: u64) -> (r: Result<Option<u64>, ConfigError>)
    ensures
        match strict_uint(var(settings_view(*vars), name), max as nat) {
            Ok(n) => r matches Ok(x) && match (x, n) {
                (Some(a), Some(b)) => a == b,
                (None, None) => true,
                _ => false,
            },
            Err(_) => r matches Err(e) && e.kind() == ConfigErrorKind::InvalidValue,
        },
        r matches Err(e) ==> e.setting_name() == Some(name@) && e.setting_text() == var(settings_view(*vars), name),
{
    match optional_var(vars, name) {
        None => Ok(None),
        Some(v) => {
            let c = chars_of(v.as_str());
            let t = trim_chars(c.as_slice());
            match parse_uint(t.as_slice(), max) {
                Some(n) => Ok(Some(n)),
                None => Err(ConfigError::InvalidValue { name, value: v, reason: int_error_text(t.as_slice()) }),
            }
        },
    }
}

fn non_blank_var(vars: &StringMap<String>, name: &'static str) -> (r: Option<String>)
    ensures
        text_opt(r) == non_blank(var(settings_view(*vars), name)),
{
    match optional_var(vars, name) {
        Some(v) => {
            let c = chars_of(v.as_str());
            let t = trim_chars(c.as_slice());
            if t.len() == 0 {
                None
            } else {
                Some(v)
            }
        },
        None => None,
    }
}

fn read_keys(vars: &StringMap<String>) -> (r: Result<(Vec<u8>, Vec<u8>), ConfigError>)
    ensures
        ({
            let m = settings_view(*vars);
            let k = hex_decoded(crate::processing::options::error::utf8_bytes(var_or_empty(m, constants::ENV_KEY)));
            let s = hex_decoded(crate::processing::options::error::utf8_bytes(var_or_empty(m, constants::ENV_SALT)));
            match (k, s) {
                (None, _) => r matches Err(e) && e.kind() == ConfigErrorKind::InvalidKey,
                (Some(_), None) => r matches Err(e) && e.kind() == ConfigErrorKind::InvalidSalt,
                (Some(a), Some(b)) => r matches Ok(x) && x.0@ == a && x.1@ == b,
            }
        }),
        r matches Err(e) ==> e.setting_name() is None,
{
    let key_text = var_text(vars, constants::ENV_KEY);
    let key = match decode_hex(key_text.as_str()) {
        Ok(k) => k,
        Err(e) => {
            return Err(ConfigError::InvalidKey(e));
        },
    };
    let salt_text = var_text(vars, constants::ENV_SALT);
    let salt = match decode_hex(salt_text.as_str()) {
        Ok(s) => s,
        Err(e) => {
            return Err(ConfigError::InvalidSalt(e));
        },
    };
    Ok((key, salt))
}

fn read_workers(vars: &StringMap<String>, cpus: usize) -> (r: Result<usize, ConfigError>)
    ensures
        match workers_setting(var(settings_view(*vars), constants::ENV_WORKERS), cpus as nat) {
            None => r matches Err(e) && e.kind() == ConfigErrorKind::InvalidWorkerCount,
            Some(n) => r matches Ok(x) && x == n,
        },
        r matches Err(e) ==> e.setting_name() == Some(constants::ENV_WORKERS@) && e.setting_text() == var(settings_view(*vars), constants::ENV_WORKERS),
{
    match optional_var(vars, constants::ENV_WORKERS) {
        None => Ok(default_worker_count(cpus)),
        Some(value) => {
            let c = chars_of(value.as_str());
            match parse_uint(c.as_slice(), usize::MAX as u64) {
                None => Err(ConfigError::InvalidWorkerCount { name: constants::ENV_WORKERS, value }),
                Some(0) => Ok(default_worker_count(cpus)),
                Some(n) => Ok(n as usize),
            }
        },
    }
}

/// The limit a setting holds, as its number.
pub open spec fn limit_number(r: Result<Option<nat>, SecurityLimitError>, out: Result<Option<nat>, ConfigError>) -> bool {
    match r {
        Ok(o) => out matches Ok(x) && x == o,
        Err(e) => out matches Err(err) && err.kind() == ConfigErrorKind::InvalidSecurityLimit(e),
    }
}

fn read_file_size(vars: &StringMap<String>, name: &'static str) -> (r: Result<Option<MaxSourceFileSize>, ConfigError>)
    ensures
        limit_number(
            limit_setting(var(settings_view(*vars), name), LimitForm::Bytes),
            match r {
                Ok(Some(l)) => Ok(Some(l.spec_get())),
                Ok(None) => Ok(None),
                Err(e) => Err(e),
            },
        ),
        r matches Err(e) ==> e.setting_name() == Some(name@) && e.setting_text() == var(settings_view(*vars), name),
{
    match optional_var(vars, name) {
        None => Ok(None),
        Some(value) => match MaxSourceFileSize::parse_text(value.as_str()) {
            Ok(l) => Ok(Some(l)),
            Err(source) => Err(ConfigError::InvalidSecurityLimit { name, value, source }),
        },
    }
}

fn read_resolution(vars: &StringMap<String>, name: &'static str) -> (r: Result<Option<MaxSourceResolution>, ConfigError>)
    ensures
        limit_number(
            limit_setting(var(settings_view(*vars), name), LimitForm::Megapixels),
            match r {
                Ok(Some(l)) => Ok(Some(l.spec_pixels())),
                Ok(None) => Ok(None),
                Err(e) => Err(e),
            },
        ),
        r matches Err(e) ==> e.setting_name() == Some(name@) && e.setting_text() == var(settings_view(*vars), name),
{
    match optional_var(vars, name) {
        None => Ok(None),
        Some(value) => match MaxSourceResolution::parse_text(value.as_str()) {
            Ok(l) => Ok(Some(l)),
            Err(source) => Err(ConfigError::InvalidSecurityLimit { name, value, source }),
        },
    }
}

fn read_dimension(vars: &StringMap<String>, name: &'static str) -> (r: Result<Option<MaxResultDimension>, ConfigError>)
    ensures
        limit_number(
            limit_setting(var(settings_view(*vars), name), LimitForm::Count),
            match r {
                Ok(Some(l)) => Ok(Some(l.spec_get())),
                Ok(None) => Ok(None),
                Err(e) => Err(e),
            },
        ),
        r matches Err(e) ==> e.setting_name() == Some(name@) && e.setting_text() == var(settings_view(*vars), name),
{
    match optional_var(vars, name) {
        None => Ok(None),
        Some(value) => match MaxResultDimension::parse_text(value.as_str()) {
            Ok(l) => Ok(Some(l)),
            Err(source) => Err(ConfigError::InvalidSecurityLimit { name, value, source }),
        },
    }
}

fn read_frames(vars: &StringMap<String>, name: &'static str) -> (r: Result<Option<MaxAnimationFrames>, ConfigError>)
    ensures
        limit_number(
            limit_setting(var(settings_view(*vars), name), LimitForm::Count),
            match r {
                Ok(Some(l)) => Ok(Some(l.spec_get())),
                Ok(None) => Ok(None),
                Err(e) => Err(e),
            },
        ),
        r matches Err(e) ==> e.setting_name() == Some(name@) && e.setting_text() == var(settings_view(*vars), name),
{
    match optional_var(vars, name) {
        None => Ok(None),
        Some(value) => match MaxAnimationFrames::parse_text(value.as_str()) {
            Ok(l) => Ok(Some(l)),
            Err(source) => Err(ConfigError::InvalidSecurityLimit { name, value, source }),
        },
    }
}

fn read_frame_resolution(vars: &StringMap<String>, name: &'static str) -> (r: Result<Option<MaxAnimationFrameResolution>, ConfigError>)
    ensures
        limit_number(
            limit_setting(var(settings_view(*vars), name), LimitForm::Megapixels),
            match r {
                Ok(Some(l)) => Ok(Some(l.spec_pixels())),
                Ok(None) => Ok(None),
                Err(e) => Err(e),
            },
        ),
        r matches Err(e) ==> e.setting_name() == Some(name@) && e.setting_text() == var(settings_view(*vars), name),
{
    match optional_var(vars, name) {
        None => Ok(None),
        Some(value) => match MaxAnimationFrameResolution::parse_text(value.as_str()) {
            Ok(l) => Ok(Some(l)),
            Err(source) => Err(ConfigError::InvalidSecurityLimit { name, value, source }),
        },
    }
}

fn read_presets(vars: &StringMap<String>) -> (r: Result<StringMap<Vec<ProcessingOption>>, ConfigError>)
    ensures
        match presets_from(split_char(var_or_empty(settings_view(*vars), constants::ENV_PRESETS), ',')) {
            Ok(t) => r matches Ok(p) && preset_table(p) == t,
            Err(_) => r matches Err(e) && e.kind() == ConfigErrorKind::InvalidPresets,
        },
        r matches Err(e) ==> e.setting_name() is None,
{
    let text = var_text(vars, constants::ENV_PRESETS);
    match parse_presets(text.as_str()) {
        Ok(p) => Ok(p),
        Err(e) => Err(ConfigError::InvalidPresets(e)),
    }
}

fn read_default_format(vars: &StringMap<String>) -> (r: Result<DefaultOutputFormat, ConfigError>)
    ensures
        match var(settings_view(*vars), constants::ENV_DEFAULT_FORMAT) {
            None => r matches Ok(f) && f == DefaultOutputFormat::Source,
            Some(v) => match default_format_of(v) {
                Some(f) => r matches Ok(x) && x == f,
                None => r matches Err(e) && e.kind() == ConfigErrorKind::InvalidDefaultFormat,
            },
        },
        r matches Err(e) ==> e.setting_name() == Some(constants::ENV_DEFAULT_FORMAT@) && e.setting_text() == var(settings_view(*vars), constants::ENV_DEFAULT_FORMAT),
{
    match optional_var(vars, constants::ENV_DEFAULT_FORMAT) {
        None => Ok(DefaultOutputFormat::Source),
        Some(value) => match DefaultOutputFormat::parse_text(value.as_str()) {
            Ok(f) => Ok(f),
            Err(source) => Err(
                ConfigError::InvalidDefaultFormat { name: constants::ENV_DEFAULT_FORMAT, value, source },
            ),
        },
    }
}

/// The option defaults the settings give.
pub open spec fn option_defaults_from(vars: Map<Seq<char>, Seq<char>>) -> OptionDefaults {
    OptionDefaults {
        auto_rotate: bool_setting(var(vars, constants::ENV_AUTO_ROTATE), true),
        strip_metadata: bool_setting(var(vars, constants::ENV_STRIP_METADATA), false),
        keep_copyright: bool_setting(var(vars, constants::ENV_KEEP_COPYRIGHT), false),
        strip_color_profile: bool_setting(var(vars, constants::ENV_STRIP_COLOR_PROFILE), false),
        preserve_hdr: bool_setting(var(vars, constants::ENV_PRESERVE_HDR), false),
        enforce_thumbnail: bool_setting(var(vars, constants::ENV_ENFORCE_THUMBNAIL), false),
        return_attachment: bool_setting(var(vars, constants::ENV_RETURN_ATTACHMENT), false),
        quality: match strict_uint(var(vars, constants::ENV_QUALITY), u8::MAX as nat)->Ok_0 {
            Some(q) => Some(quality_clamp(q)),
            None => None,
        },
    }
}

fn read_option_defaults(vars: &StringMap<String>) -> (r: Result<OptionDefaults, ConfigError>)
    ensures
        match strict_uint(var(settings_view(*vars), constants::ENV_QUALITY), u8::MAX as nat) {
            Err(_) => r matches Err(e) && e.kind() == ConfigErrorKind::InvalidValue,
            Ok(_) => r matches Ok(d) && d == option_defaults_from(settings_view(*vars)),
        },
        r matches Err(e) ==> e.setting_name() == Some(constants::ENV_QUALITY@) && e.setting_text() == var(settings_view(*vars), constants::ENV_QUALITY),
{
    let quality = match strict(vars, constants::ENV_QUALITY, u8::MAX as u64)? {
        Some(q) => Some(
            if q < 1 {
                1u8
            } else if q > 100 {
                100u8
            } else {
                q as u8
            },
        ),
        None => None,
    };
    Ok(
        OptionDefaults {
            auto_rotate: bool_var(vars, constants::ENV_AUTO_ROTATE, true),
            strip_metadata: bool_var(vars, constants::ENV_STRIP_METADATA, false),
            keep_copyright: bool_var(vars, constants::ENV_KEEP_COPYRIGHT, false),
            strip_color_profile: bool_var(vars, constants::ENV_STRIP_COLOR_PROFILE, false),
            preserve_hdr: bool_var(vars, constants::ENV_PRESERVE_HDR, false),
            enforce_thumbnail: bool_var(vars, constants::ENV_ENFORCE_THUMBNAIL, false),
            return_attachment: bool_var(vars, constants::ENV_RETURN_ATTACHMENT, false),
            quality,
        },
    )
}

fn read_mime_types(vars: &StringMap<String>) -> (r: Option<Vec<String>>)
    ensures
        match var(settings_view(*vars), constants::ENV_ALLOWED_MIME_TYPES) {
            Some(v) => r matches Some(x) && arg_views(x@) == split_char(v, ','),
            None => r is None,
        },
{
    match optional_var(vars, constants::ENV_ALLOWED_MIME_TYPES) {
        Some(v) => {
            let c = chars_of(v.as_str());
            let parts = split_chars(c.as_slice(), ',');
            let mut out: Vec<String> = Vec::new();
            let mut i: usize = 0;
            while i < parts.len()
                invariant
                    i <= parts@.len(),
                    arg_views(out@) == views(parts@).take(i as int),
                decreases parts@.len() - i,
            {
                let ghost before = out@;
                out.push(string_of(parts[i].as_slice()));
                assert(arg_views(out@) =~= arg_views(before).push(parts@[i as int]@));
                i = i + 1;
                assert(arg_views(out@) =~= views(parts@).take(i as int));
            }
            assert(views(parts@).take(parts@.len() as int) =~= views(parts@));
            Some(out)
        },
        None => None,
    }
}

fn read_rate_limit(vars: &StringMap<String>) -> (r: Option<u32>)
    ensures
        r == match var(settings_view(*vars), constants::ENV_RATE_LIMIT_PER_MINUTE) {
            Some(v) => match parse_unsigned(v, u32::MAX as nat) {
                Some(n) => Some(n as u32),
                None => None,
            },
            None => None,
        },
{
    match optional_var(vars, constants::ENV_RATE_LIMIT_PER_MINUTE) {
        Some(v) => {
            let c = chars_of(v.as_str());
            match parse_uint(c.as_slice(), u32::MAX as u64) {
                Some(n) => Some(n as u32),
                None => None,
            }
        },
        None => None,
    }
}

impl Config {
    /// Reads a configuration from the settings that are present, on a
    /// machine with `cpus` CPUs.
    #[verifier::rlimit(60)]
    pub fn from_vars(vars: &StringMap<String>, cpus: usize) -> (r: Result<Self, ConfigError>)
        ensures
            config_outcome(settings_view(*vars), cpus as nat, r),
    {
        let ghost m = settings_view(*vars);
        let (key, salt) = read_keys(vars)?;
        let workers = read_workers(vars, cpus)?;
        let bind_address = match optional_var(vars, constants::ENV_BIND) {
            Some(v) => normalize_bind_address(v.as_str()),
            None => normalize_bind_address("0.0.0.0:3000"),
        };
        let prometheus_bind_address = match optional_var(vars, constants::ENV_PROMETHEUS_BIND) {
            Some(v) => Some(normalize_bind_address(v.as_str())),
            None => None,
        };
        let timeout = lenient(vars, constants::ENV_TIMEOUT, u64::MAX, 30);
        let allow_unsigned = lower_true(vars, constants::ENV_ALLOW_UNSIGNED);
        let allow_security_options = lower_true(vars, constants::ENV_ALLOW_SECURITY_OPTIONS);
        let file_size = read_file_size(vars, constants::ENV_MAX_SRC_FILE_SIZE)?;
        let resolution = read_resolution(vars, constants::ENV_MAX_SRC_RESOLUTION)?;
        let dimension = read_dimension(vars, constants::ENV_MAX_RESULT_DIMENSION)?;
        let allowed_mime_types = read_mime_types(vars);
        let download_timeout = lenient(vars, constants::ENV_DOWNLOAD_TIMEOUT, u64::MAX, 10);
        let secret = optional_var(vars, constants::ENV_SECRET);
        let presets = read_presets(vars)?;
        let only_presets = lower_true(vars, constants::ENV_ONLY_PRESETS);
        let watermark_path = optional_var(vars, constants::ENV_WATERMARK_PATH);
        let default_format = read_default_format(vars)?;
        let rate_limit_per_minute = read_rate_limit(vars);
        let frames = read_frames(vars, constants::ENV_MAX_ANIMATION_FRAMES)?;
        let frame_resolution = read_frame_resolution(vars, constants::ENV_MAX_ANIMATION_FRAME_RESOLUTION)?;
        let option_defaults = read_option_defaults(vars)?;
        let ttl = strict(vars, constants::ENV_TTL, u64::MAX)?;
        let max_redirects = match strict(vars, constants::ENV_MAX_REDIRECTS, usize::MAX as u64)? {
            Some(n) => n as usize,
            None => 10,
        };
        let prefix = optional_var(vars, constants::ENV_PATH_PREFIX);
        let path_prefix = match &prefix {
            Some(p) => normalize_path_prefix(Some(p.as_str())),
            None => normalize_path_prefix(None),
        };
        let health = optional_var(vars, constants::ENV_HEALTH_CHECK_PATH);
        let health_check_path = match &health {
            Some(p) => normalize_health_check_path(Some(p.as_str())),
            None => normalize_health_check_path(None),
        };
        let user_agent = match non_blank_var(vars, constants::ENV_USER_AGENT) {
            Some(v) => v,
            None => DEFAULT_USER_AGENT.to_owned(),
        };
        let mut config = Config::with_workers(key, salt, workers);
        config.bind_address = bind_address;
        config.prometheus_bind_address = prometheus_bind_address;
        config.timeout = timeout;
        config.allow_unsigned = allow_unsigned;
        config.allow_security_options = allow_security_options;
        config.max_src_file_size = file_size;
        config.max_src_resolution = resolution;
        config.max_result_dimension = dimension;
        config.allowed_mime_types = allowed_mime_types;
        config.download_timeout = download_timeout;
        config.secret = secret;
        config.presets = presets;
        config.only_presets = only_presets;
        config.watermark_path = watermark_path;
        config.default_format = default_format;
        config.rate_limit_per_minute = rate_limit_per_minute;
        config.max_animation_frames = frames;
        config.max_animation_frame_resolution = frame_resolution;
        config.option_defaults = option_defaults;
        config.ttl = ttl;
        config.cache_control_passthrough = bool_var(vars, constants::ENV_CACHE_CONTROL_PASSTHROUGH, false);
        config.use_etag = bool_var(vars, constants::ENV_USE_ETAG, false);
        config.last_modified_enabled = bool_var(vars, constants::ENV_LAST_MODIFIED_ENABLED, false);
        config.set_canonical_header = bool_var(vars, constants::ENV_SET_CANONICAL_HEADER, false);
        config.allow_origin = non_blank_var(vars, constants::ENV_ALLOW_ORIGIN);
        config.path_prefix = path_prefix;
        config.health_check_path = health_check_path;
        config.development_errors_mode = bool_var(vars, constants::ENV_DEVELOPMENT_ERRORS_MODE, false);
        config.enable_debug_headers = bool_var(vars, constants::ENV_ENABLE_DEBUG_HEADERS, false);
        config.user_agent = user_agent;
        config.max_redirects = max_redirects;
        config.enable_webp_detection = bool_var(vars, constants::ENV_ENABLE_WEBP_DETECTION, false);
        config.enforce_webp = bool_var(vars, constants::ENV_ENFORCE_WEBP, false);
        config.enable_avif_detection = bool_var(vars, constants::ENV_ENABLE_AVIF_DETECTION, false);
        config.enforce_avif = bool_var(vars, constants::ENV_ENFORCE_AVIF, false);
        config.enable_client_hints = bool_var(vars, constants::ENV_ENABLE_CLIENT_HINTS, false);
        Ok(config)
    }

    /// Holds a request to the configured security limits unless the
    /// configuration lets URLs set their own: then the request is left alone.
    pub fn restrict_security_options(&self, parsed: &mut ParsedOptions)
        ensures
            self.allow_security_options ==> *final(parsed) == *old(parsed),
            !self.allow_security_options ==> *final(parsed) == (ParsedOptions {
                max_src_file_size: self.max_src_file_size,
                max_src_resolution: self.max_src_resolution,
                max_result_dimension: self.max_result_dimension,
                max_animation_frames: self.max_animation_frames,
                max_animation_frame_resolution: self.max_animation_frame_resolution,
                ..*old(parsed)
            }),
    {
        if !self.allow_security_options {
            parsed.max_src_file_size = self.max_src_file_size;
            parsed.max_src_resolution = self.max_src_resolution;
            parsed.max_result_dimension = self.max_result_dimension;
            parsed.max_animation_frames = self.max_animation_frames;
            parsed.max_animation_frame_resolution = self.max_animation_frame_resolution;
        }
    }

    /// Reads a configuration from the settings that are present, on this
    /// machine.
    pub fn from_settings(vars: &StringMap<String>) -> (r: Result<Self, ConfigError>)
        ensures
            exists|cpus: nat| cpus >= 1 && #[trigger] config_outcome(settings_view(*vars), cpus, r),
    {
        let cpus = available_cpus();
        Self::from_vars(vars, cpus)
    }
}

} // verus!

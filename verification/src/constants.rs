//! Names of the environment variables the server reads, and fixed defaults.

use vstd::prelude::*;

verus! {

pub const ENV_KEY: &'static str = "IMGFORGE_KEY";
pub const ENV_SALT: &'static str = "IMGFORGE_SALT";
pub const ENV_WORKERS: &'static str = "IMGFORGE_WORKERS";
pub const ENV_BIND: &'static str = "IMGFORGE_BIND";
pub const ENV_PROMETHEUS_BIND: &'static str = "IMGFORGE_PROMETHEUS_BIND";
pub const ENV_TIMEOUT: &'static str = "IMGFORGE_TIMEOUT";
pub const ENV_ALLOW_UNSIGNED: &'static str = "IMGFORGE_ALLOW_UNSIGNED";
pub const ENV_ALLOW_SECURITY_OPTIONS: &'static str = "IMGFORGE_ALLOW_SECURITY_OPTIONS";
pub const ENV_MAX_SRC_FILE_SIZE: &'static str = "IMGFORGE_MAX_SRC_FILE_SIZE";
pub const ENV_MAX_SRC_RESOLUTION: &'static str = "IMGFORGE_MAX_SRC_RESOLUTION";
pub const ENV_MAX_RESULT_DIMENSION: &'static str = "IMGFORGE_MAX_RESULT_DIMENSION";
pub const ENV_ALLOWED_MIME_TYPES: &'static str = "IMGFORGE_ALLOWED_MIME_TYPES";
pub const ENV_DOWNLOAD_TIMEOUT: &'static str = "IMGFORGE_DOWNLOAD_TIMEOUT";
pub const ENV_SECRET: &'static str = "IMGFORGE_SECRET";
pub const ENV_PRESETS: &'static str = "IMGFORGE_PRESETS";
pub const ENV_ONLY_PRESETS: &'static str = "IMGFORGE_ONLY_PRESETS";
pub const ENV_WATERMARK_PATH: &'static str = "IMGFORGE_WATERMARK_PATH";
pub const ENV_DEFAULT_FORMAT: &'static str = "IMGFORGE_DEFAULT_FORMAT";
pub const ENV_RATE_LIMIT_PER_MINUTE: &'static str = "IMGFORGE_RATE_LIMIT_PER_MINUTE";
pub const ENV_MAX_ANIMATION_FRAMES: &'static str = "IMGFORGE_MAX_ANIMATION_FRAMES";
pub const ENV_MAX_ANIMATION_FRAME_RESOLUTION: &'static str = "IMGFORGE_MAX_ANIMATION_FRAME_RESOLUTION";
pub const ENV_AUTO_ROTATE: &'static str = "IMGFORGE_AUTO_ROTATE";
pub const ENV_STRIP_METADATA: &'static str = "IMGFORGE_STRIP_METADATA";
pub const ENV_KEEP_COPYRIGHT: &'static str = "IMGFORGE_KEEP_COPYRIGHT";
pub const ENV_STRIP_COLOR_PROFILE: &'static str = "IMGFORGE_STRIP_COLOR_PROFILE";
pub const ENV_PRESERVE_HDR: &'static str = "IMGFORGE_PRESERVE_HDR";
pub const ENV_ENFORCE_THUMBNAIL: &'static str = "IMGFORGE_ENFORCE_THUMBNAIL";
pub const ENV_RETURN_ATTACHMENT: &'static str = "IMGFORGE_RETURN_ATTACHMENT";
pub const ENV_QUALITY: &'static str = "IMGFORGE_QUALITY";
pub const ENV_TTL: &'static str = "IMGFORGE_TTL";
pub const ENV_CACHE_CONTROL_PASSTHROUGH: &'static str = "IMGFORGE_CACHE_CONTROL_PASSTHROUGH";
pub const ENV_USE_ETAG: &'static str = "IMGFORGE_USE_ETAG";
pub const ENV_LAST_MODIFIED_ENABLED: &'static str = "IMGFORGE_LAST_MODIFIED_ENABLED";
pub const ENV_SET_CANONICAL_HEADER: &'static str = "IMGFORGE_SET_CANONICAL_HEADER";
pub const ENV_ALLOW_ORIGIN: &'static str = "IMGFORGE_ALLOW_ORIGIN";
pub const ENV_PATH_PREFIX: &'static str = "IMGFORGE_PATH_PREFIX";
pub const ENV_HEALTH_CHECK_PATH: &'static str = "IMGFORGE_HEALTH_CHECK_PATH";
pub const ENV_DEVELOPMENT_ERRORS_MODE: &'static str = "IMGFORGE_DEVELOPMENT_ERRORS_MODE";
pub const ENV_ENABLE_DEBUG_HEADERS: &'static str = "IMGFORGE_ENABLE_DEBUG_HEADERS";
pub const ENV_USER_AGENT: &'static str = "IMGFORGE_USER_AGENT";
pub const ENV_MAX_REDIRECTS: &'static str = "IMGFORGE_MAX_REDIRECTS";
pub const ENV_ENABLE_WEBP_DETECTION: &'static str = "IMGFORGE_ENABLE_WEBP_DETECTION";
pub const ENV_ENFORCE_WEBP: &'static str = "IMGFORGE_ENFORCE_WEBP";
pub const ENV_ENABLE_AVIF_DETECTION: &'static str = "IMGFORGE_ENABLE_AVIF_DETECTION";
pub const ENV_ENFORCE_AVIF: &'static str = "IMGFORGE_ENFORCE_AVIF";
pub const ENV_ENABLE_CLIENT_HINTS: &'static str = "IMGFORGE_ENABLE_CLIENT_HINTS";
pub const ENV_CACHE_TYPE: &'static str = "IMGFORGE_CACHE_TYPE";
pub const ENV_CACHE_MEMORY_CAPACITY: &'static str = "IMGFORGE_CACHE_MEMORY_CAPACITY";
pub const ENV_CACHE_DISK_PATH: &'static str = "IMGFORGE_CACHE_DISK_PATH";
pub const ENV_CACHE_DISK_CAPACITY: &'static str = "IMGFORGE_CACHE_DISK_CAPACITY";

/// The `User-Agent` a source fetch sends unless one is configured.
pub const DEFAULT_USER_AGENT: &'static str = "imgforge";

} // verus!

//! Probe configuration: target, timeout and thresholds, built from optional
//! environment values with silent fallback to the defaults.

use vstd::prelude::*;
use vstd::string::*;
use crate::decimal::{
    parse_u16_or, parse_u32_or, parse_u64_or, u16_or_default_spec, u32_or_default_spec,
    u64_or_default_spec,
};

verus! {

pub const DEFAULT_PORT: u16 = 80;

pub const DEFAULT_MID_THRESHOLD: u32 = 50;

pub const DEFAULT_BAD_THRESHOLD: u32 = 150;

pub const DEFAULT_TIMEOUT_SECS: u64 = 1;

/// The host probed when no hostname is configured.
pub open spec fn default_hostname() -> Seq<char> {
    "www.google.com"@
}

/// What one probe needs: target host and port, connect timeout, and the two
/// latency thresholds (milliseconds). Built once; never mutated.
pub struct ProbeConfig {
    pub hostname: String,
    pub port: u16,
    pub timeout_secs: u64,
    pub mid_threshold: u32,
    pub bad_threshold: u32,
}

/// Builds the configuration from the raw environment values, each `None`
/// where the variable is unset. A malformed numeric value falls back
/// silently to its default; it never aborts the probe.
pub fn config_from_env(
    hostname: Option<String>,
    port: Option<String>,
    mid_threshold: Option<String>,
    bad_threshold: Option<String>,
    timeout: Option<String>,
) -> (c: ProbeConfig)
    ensures
        c.hostname@ == match hostname {
            Some(h) => h@,
            None => default_hostname(),
        },
        c.port == match port {
            Some(p) => u16_or_default_spec(p@, DEFAULT_PORT),
            None => DEFAULT_PORT,
        },
        c.mid_threshold == match mid_threshold {
            Some(m) => u32_or_default_spec(m@, DEFAULT_MID_THRESHOLD),
            None => DEFAULT_MID_THRESHOLD,
        },
        c.bad_threshold == match bad_threshold {
            Some(b) => u32_or_default_spec(b@, DEFAULT_BAD_THRESHOLD),
            None => DEFAULT_BAD_THRESHOLD,
        },
        c.timeout_secs == match timeout {
            Some(t) => u64_or_default_spec(t@, DEFAULT_TIMEOUT_SECS),
            None => DEFAULT_TIMEOUT_SECS,
        },
{
    ProbeConfig {
        hostname: match hostname {
            Some(h) => h,
            None => String::from_str("www.google.com"),
        },
        port: match port {
            Some(p) => parse_u16_or(p.as_str(), DEFAULT_PORT),
            None => DEFAULT_PORT,
        },
        mid_threshold: match mid_threshold {
            Some(m) => parse_u32_or(m.as_str(), DEFAULT_MID_THRESHOLD),
            None => DEFAULT_MID_THRESHOLD,
        },
        bad_threshold: match bad_threshold {
            Some(b) => parse_u32_or(b.as_str(), DEFAULT_BAD_THRESHOLD),
            None => DEFAULT_BAD_THRESHOLD,
        },
        timeout_secs: match timeout {
            Some(t) => parse_u64_or(t.as_str(), DEFAULT_TIMEOUT_SECS),
            None => DEFAULT_TIMEOUT_SECS,
        },
    }
}

} // verus!

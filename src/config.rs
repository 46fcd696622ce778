//! Configuration sections, their defaults, and the range checks on them.
//!
//! Reading the file and the floating-point calibration section live
//! outside the library; the sections here hold integers, flags and text.

use vstd::prelude::*;
use crate::error::FpvBridgeError;

verus! {

/// Serial port settings.
#[derive(Debug, Clone)]
pub struct SerialConfig {
    pub port: String,
    pub baud_rate: u32,
    pub timeout_ms: u64,
    pub reconnect_interval_ms: u64,
}

/// Channel output settings.
#[derive(Debug, Clone)]
pub struct ChannelConfig {
    pub throttle_min: u16,
    pub throttle_max: u16,
    pub center: u16,
    /// Channels to reverse, 0-based.
    pub channel_reverse: Vec<usize>,
}

/// Telemetry logging settings.
#[derive(Debug, Clone)]
pub struct TelemetryConfig {
    pub enabled: bool,
    pub log_dir: String,
    pub max_records_per_file: usize,
    pub max_files_to_keep: usize,
    pub log_interval_ms: u64,
    pub format: String,
}

/// Safety settings.
#[derive(Debug, Clone)]
pub struct SafetyConfig {
    pub arm_button_hold_ms: u64,
    pub auto_disarm_timeout_s: u64,
    pub failsafe_timeout_ms: u64,
    pub min_throttle_to_arm: u16,
}

/// Protocol timing settings.
#[derive(Debug, Clone)]
pub struct CrsfConfig {
    pub packet_rate_hz: u32,
    pub link_stats_interval_ms: u64,
}

pub fn default_serial_port() -> (r: String)
    ensures
        r@ == "/dev/ttyACM0"@,
{
    "/dev/ttyACM0".to_owned()
}

pub fn default_baud_rate() -> (r: u32)
    ensures
        r == 420000,
{
    420000
}

pub fn default_timeout_ms() -> (r: u64)
    ensures
        r == 100,
{
    100
}

pub fn default_reconnect_interval_ms() -> (r: u64)
    ensures
        r == 1000,
{
    1000
}

pub fn default_throttle_min() -> (r: u16)
    ensures
        r == 1000,
{
    1000
}

pub fn default_throttle_max() -> (r: u16)
    ensures
        r == 2000,
{
    2000
}

pub fn default_center() -> (r: u16)
    ensures
        r == 1500,
{
    1500
}

pub fn default_telemetry_enabled() -> (r: bool)
    ensures
        r,
{
    true
}

pub fn default_log_dir() -> (r: String)
    ensures
        r@ == "./logs"@,
{
    "./logs".to_owned()
}

pub fn default_max_records_per_file() -> (r: usize)
    ensures
        r == 10000,
{
    10000
}

pub fn default_max_files_to_keep() -> (r: usize)
    ensures
        r == 10,
{
    10
}

pub fn default_log_interval_ms() -> (r: u64)
    ensures
        r == 100,
{
    100
}

pub fn default_log_format() -> (r: String)
    ensures
        r@ == "jsonl"@,
{
    "jsonl".to_owned()
}

pub fn default_arm_button_hold_ms() -> (r: u64)
    ensures
        r == 1000,
{
    1000
}

pub fn default_auto_disarm_timeout_s() -> (r: u64)
    ensures
        r == 300,
{
    300
}

pub fn default_failsafe_timeout_ms() -> (r: u64)
    ensures
        r == 500,
{
    500
}

pub fn default_min_throttle_to_arm() -> (r: u16)
    ensures
        r == 1050,
{
    1050
}

pub fn default_packet_rate_hz() -> (r: u32)
    ensures
        r == 250,
{
    250
}

pub fn default_link_stats_interval_ms() -> (r: u64)
    ensures
        r == 1000,
{
    1000
}

/// Baud rates the transmitter modules accept.
pub open spec fn supported_baud_rate(b: u32) -> bool {
    b == 115200 || b == 400000 || b == 420000 || b == 921600 || b == 1870000 || b == 3750000
}

/// Packet rates the link supports.
pub open spec fn supported_packet_rate(r: u32) -> bool {
    r == 50 || r == 150 || r == 250 || r == 500
}

/// Every range rule on the sections holds.
pub open spec fn settings_valid(
    serial: SerialConfig,
    channels: ChannelConfig,
    telemetry: TelemetryConfig,
    safety: SafetyConfig,
    crsf: CrsfConfig,
) -> bool {
    &&& serial.port@.len() > 0
    &&& (telemetry.enabled ==> telemetry.log_dir@.len() > 0)
    &&& 1 <= serial.timeout_ms <= 10000
    &&& 1 <= serial.reconnect_interval_ms <= 60000
    &&& 1 <= telemetry.log_interval_ms <= 60000
    &&& 1 <= safety.failsafe_timeout_ms <= 60000
    &&& 1 <= safety.arm_button_hold_ms <= 10000
    &&& safety.auto_disarm_timeout_s > 0
    &&& 1 <= crsf.link_stats_interval_ms <= 60000
    &&& telemetry.max_records_per_file > 0
    &&& telemetry.max_files_to_keep > 0
    &&& 988 <= channels.throttle_min <= 1500
    &&& 1500 <= channels.throttle_max <= 2012
    &&& channels.throttle_min < channels.throttle_max
    &&& channels.throttle_min <= channels.center <= channels.throttle_max
    &&& forall|i: int|
        0 <= i < channels.channel_reverse@.len() ==> #[trigger] channels.channel_reverse@[i] <= 15
    &&& channels.throttle_min <= safety.min_throttle_to_arm <= channels.throttle_max
    &&& supported_baud_rate(serial.baud_rate)
    &&& telemetry.format@ == "jsonl"@
    &&& supported_packet_rate(crsf.packet_rate_hz)
}

fn config_error(message: &str) -> (r: FpvBridgeError)
    ensures
        r is Config,
{
    FpvBridgeError::Config(message.to_owned())
}

/// Checks the range rules on the sections; the error names the first
/// rule that fails.
pub fn validate_settings(
    serial: &SerialConfig,
    channels: &ChannelConfig,
    telemetry: &TelemetryConfig,
    safety: &SafetyConfig,
    crsf: &CrsfConfig,
) -> (r: Result<(), FpvBridgeError>)
    ensures
        r is Ok <==> settings_valid(*serial, *channels, *telemetry, *safety, *crsf),
        r is Err ==> r->Err_0 is Config,
{
    if serial.port.as_str().is_empty() {
        return Err(config_error("serial port cannot be empty"));
    }
    if telemetry.enabled && telemetry.log_dir.as_str().is_empty() {
        return Err(config_error("telemetry log_dir cannot be empty when enabled"));
    }
    if serial.timeout_ms == 0 || serial.timeout_ms > 10000 {
        return Err(config_error("timeout_ms must be between 1 and 10000"));
    }
    if serial.reconnect_interval_ms == 0 || serial.reconnect_interval_ms > 60000 {
        return Err(config_error("reconnect_interval_ms must be between 1 and 60000"));
    }
    if telemetry.log_interval_ms == 0 || telemetry.log_interval_ms > 60000 {
        return Err(config_error("log_interval_ms must be between 1 and 60000"));
    }
    if safety.failsafe_timeout_ms == 0 || safety.failsafe_timeout_ms > 60000 {
        return Err(config_error("failsafe_timeout_ms must be between 1 and 60000"));
    }
    if safety.arm_button_hold_ms == 0 || safety.arm_button_hold_ms > 10000 {
        return Err(config_error("arm_button_hold_ms must be between 1 and 10000"));
    }
    if safety.auto_disarm_timeout_s == 0 {
        return Err(config_error("auto_disarm_timeout_s must be greater than 0"));
    }
    if crsf.link_stats_interval_ms == 0 || crsf.link_stats_interval_ms > 60000 {
        return Err(config_error("link_stats_interval_ms must be between 1 and 60000"));
    }
    if telemetry.max_records_per_file == 0 {
        return Err(config_error("max_records_per_file must be greater than 0"));
    }
    if telemetry.max_files_to_keep == 0 {
        return Err(config_error("max_files_to_keep must be greater than 0"));
    }
    if channels.throttle_min < 988 || channels.throttle_min > 1500 {
        return Err(config_error("throttle_min must be between 988 and 1500"));
    }
    if channels.throttle_max < 1500 || channels.throttle_max > 2012 {
        return Err(config_error("throttle_max must be between 1500 and 2012"));
    }
    if channels.throttle_min >= channels.throttle_max {
        return Err(config_error("throttle_min must be less than throttle_max"));
    }
    if channels.center < channels.throttle_min || channels.center > channels.throttle_max {
        return Err(
            config_error("center must be within throttle range (throttle_min to throttle_max)"),
        );
    }
    let mut i: usize = 0;
    while i < channels.channel_reverse.len()
        invariant
            i <= channels.channel_reverse@.len(),
            forall|k: int| 0 <= k < i ==> #[trigger] channels.channel_reverse@[k] <= 15,
        decreases channels.channel_reverse.len() - i,
    {
        if channels.channel_reverse[i] > 15 {
            return Err(config_error("channel_reverse index is out of bounds (must be 0-15)"));
        }
        i += 1;
    }
    if safety.min_throttle_to_arm < channels.throttle_min || safety.min_throttle_to_arm
        > channels.throttle_max {
        return Err(
            config_error(
                "min_throttle_to_arm must be within throttle range (throttle_min to throttle_max)",
            ),
        );
    }
    let b = serial.baud_rate;
    if !(b == 115200 || b == 400000 || b == 420000 || b == 921600 || b == 1870000 || b
        == 3750000) {
        return Err(
            config_error(
                "baud_rate must be one of: 115200, 400000, 420000, 921600, 1870000, 3750000",
            ),
        );
    }
    let jsonl = "jsonl".to_owned();
    if telemetry.format != jsonl {
        return Err(config_error("log format must be 'jsonl' (only supported format)"));
    }
    let p = crsf.packet_rate_hz;
    if !(p == 50 || p == 150 || p == 250 || p == 500) {
        return Err(config_error("packet_rate_hz must be one of: 50, 150, 250, 500"));
    }
    Ok(())
}

} // verus!

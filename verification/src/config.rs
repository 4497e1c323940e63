//! Configuration of the two endpoints. These are the plain settings structs;
//! reading them from disk and deserializing them is the application shell's
//! business, which converts into these types before anything else runs.

use vstd::prelude::*;

verus! {

/// Settings of the listening endpoint.
#[derive(Debug, Clone, PartialEq, Eq)]
pub struct ServerSettings {
    /// Address and port to bind, as `host:port`.
    pub listen_addr: String,
    /// Path of the file holding this endpoint's static secret.
    pub private_key: String,
    /// Path of the peer's public key file, when pinned ahead of time.
    pub public_key: Option<String>,
    /// How many concurrent sessions the endpoint admits.
    pub max_connections: usize,
    /// Seconds of silence before a session is torn down.
    pub session_timeout: u64,
    /// Seconds of idleness before a keep-alive is sent.
    pub keepalive_interval: u64,
    /// Seconds without any inbound traffic before the peer counts as gone.
    pub keepalive_timeout: u64,
}

/// Settings of the connecting endpoint.
#[derive(Debug, Clone, PartialEq, Eq)]
pub struct ClientSettings {
    /// The server's address and port, as `host:port`.
    pub server_addr: String,
    /// Path of the file holding this endpoint's static secret.
    pub private_key: String,
    /// Path of the server's public key file.
    pub server_public_key: String,
    /// Optional label this client reports about itself.
    pub client_id: Option<String>,
    /// Seconds allowed for establishing the session.
    pub connection_timeout: u64,
    /// Whether to reconnect after the session drops.
    pub auto_reconnect: bool,
    /// Seconds to wait between reconnect attempts.
    pub reconnect_delay: u64,
    /// How many reconnect attempts before giving up.
    pub max_reconnect_attempts: u64,
}

/// Settings of the virtual interface and routing.
#[derive(Debug, Clone, PartialEq, Eq)]
pub struct NetworkSettings {
    /// Name of the virtual interface.
    pub tun_name: String,
    /// Its address in CIDR notation.
    pub tun_ip: String,
    /// Maximum transmission unit of the interface.
    pub mtu: u16,
    /// Whether the host should forward between interfaces.
    pub ip_forwarding: bool,
    /// Nameservers to install while the tunnel is up.
    pub dns_servers: Vec<String>,
    /// Source ranges admitted into the tunnel.
    pub allowed_ips: Vec<String>,
    /// Routes to send through the tunnel.
    pub routes: Vec<String>,
}

/// Settings of the log output.
#[derive(Debug, Clone, PartialEq, Eq)]
pub struct LoggingSettings {
    /// Minimum level that is written.
    pub level: String,
    /// File to write to instead of the standard streams.
    pub file: Option<String>,
    /// Whether log lines are emitted as JSON.
    pub json_format: bool,
}

/// Tuning knobs with defaults that fit most links.
#[derive(Debug, Clone, PartialEq, Eq)]
pub struct AdvancedSettings {
    /// Congestion control algorithm name.
    pub congestion_control: String,
    /// Initial congestion window, in packets.
    pub init_cwnd: u32,
    /// Largest packet the endpoint emits.
    pub max_packet_size: u16,
    /// Whether outbound packets may be coalesced.
    pub enable_buffering: bool,
    /// Size of the coalescing buffer, in bytes.
    pub buffer_size: usize,
    /// Whether path-MTU discovery runs.
    pub enable_pmtud: bool,
    /// Whether traffic shaping against analysis is on.
    pub enable_obfuscation: bool,
    /// Which obfuscation mode is used when it is on.
    pub obfuscation_mode: String,
    /// Whether payloads are compressed before sealing.
    pub enable_compression: bool,
    /// Compression level when compression is on.
    pub compression_level: u32,
}

/// The whole configuration of the listening endpoint.
#[derive(Debug, Clone, PartialEq, Eq)]
pub struct ServerConfig {
    pub server: ServerSettings,
    pub network: NetworkSettings,
    pub logging: LoggingSettings,
    pub advanced: AdvancedSettings,
}

/// The whole configuration of the connecting endpoint.
#[derive(Debug, Clone, PartialEq, Eq)]
pub struct ClientConfig {
    pub client: ClientSettings,
    pub network: NetworkSettings,
    pub logging: LoggingSettings,
    pub advanced: AdvancedSettings,
}

/// Default congestion control algorithm.
pub fn default_congestion_control() -> (r: String)
    ensures
        r@ == "bbr"@,
{
    "bbr".to_owned()
}

/// Default initial congestion window.
pub fn default_init_cwnd() -> (r: u32)
    ensures
        r == 10,
{
    10
}

/// Default largest packet size.
pub fn default_max_packet_size() -> (r: u16)
    ensures
        r == 1500,
{
    1500
}

/// Buffering is on by default.
pub fn default_enable_buffering() -> (r: bool)
    ensures
        r,
{
    true
}

/// Default coalescing buffer size.
pub fn default_buffer_size() -> (r: usize)
    ensures
        r == 1024,
{
    1024
}

/// Path-MTU discovery is on by default.
pub fn default_enable_pmtud() -> (r: bool)
    ensures
        r,
{
    true
}

/// Default compression level.
pub fn default_compression_level() -> (r: u32)
    ensures
        r == 6,
{
    6
}

} // verus!

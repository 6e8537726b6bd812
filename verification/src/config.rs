//! The UPF's configuration file: its sections, and the values of the
//! settings that the file leaves out.
use vstd::prelude::*;

verus! {

pub struct UpfConfig {
    pub interfaces: InterfacesConfig,
    pub pfcp: PfcpConfig,
    pub peers: PeersConfig,
    pub redis: RedisConfig,
    pub metrics: MetricsConfig,
}

pub struct InterfacesConfig {
    /// N3 interface name (gNB side, receives GTP-U)
    pub n3_iface: Option<String>,
    /// Own N3 address (GTP-U source address)
    pub n3_addr: Option<String>,
    /// N6 interface name (Data Network side)
    pub n6_iface: Option<String>,
    /// The interface on which downlink replies arrive (the N6 peer veth,
    /// or another interface)
    pub ue_deliver_iface: Option<String>,
}

pub struct PfcpConfig {
    /// Own PFCP N4 address
    pub n4_addr: Option<String>,
    /// PFCP N4 port
    pub n4_port: u16,
}

pub struct PeersConfig {
    /// gNB MAC address (static); without it the MAC is learned by ARP for
    /// `gnb_addr`
    pub gnb_mac: Option<String>,
    /// gNB IP address (ARP target)
    pub gnb_addr: Option<String>,
    /// SMF IP (for reference)
    pub smf_addr: Option<String>,
}

pub struct RedisConfig {
    pub url: String,
    pub enabled: bool,
}

#[derive(Clone)]
pub struct MetricsConfig {
    pub enabled: bool,
    pub listen_addr: String,
}

pub fn default_metrics_enabled() -> (r: bool)
    ensures
        r,
{
    true
}

pub fn default_metrics_addr() -> (r: String)
    ensures
        r@ == "0.0.0.0:9091"@,
{
    String::from_str("0.0.0.0:9091")
}

pub fn default_pfcp_port() -> (r: u16)
    ensures
        r == 8805,
{
    8805
}

pub fn default_redis_url() -> (r: String)
    ensures
        r@ == "redis://127.0.0.1/"@,
{
    String::from_str("redis://127.0.0.1/")
}

pub fn default_true() -> (r: bool)
    ensures
        r,
{
    true
}

/// The file a configuration is read from: the one named, else the
/// default configuration of the source tree.
pub fn config_path(explicit: Option<&str>) -> (r: String)
    ensures
        match explicit {
            Some(p) => r@ == p@,
            None => r@ == "upf-edge/configs/upf-edge-default.toml"@,
        },
{
    match explicit {
        Some(p) => String::from_str(p),
        None => String::from_str("upf-edge/configs/upf-edge-default.toml"),
    }
}

impl Default for InterfacesConfig {
    fn default() -> (r: Self)
        ensures
            r.n3_iface is None,
            r.n3_addr is None,
            r.n6_iface is None,
            r.ue_deliver_iface is None,
    {
        Self { n3_iface: None, n3_addr: None, n6_iface: None, ue_deliver_iface: None }
    }
}

impl Default for PfcpConfig {
    /// An absent `[pfcp]` section: no address, and port 0 (the port's own
    /// default applies only within a section that leaves it out).
    fn default() -> (r: Self)
        ensures
            r.n4_addr is None,
            r.n4_port == 0,
    {
        Self { n4_addr: None, n4_port: 0 }
    }
}

impl Default for PeersConfig {
    fn default() -> (r: Self)
        ensures
            r.gnb_mac is None,
            r.gnb_addr is None,
            r.smf_addr is None,
    {
        Self { gnb_mac: None, gnb_addr: None, smf_addr: None }
    }
}

impl Default for RedisConfig {
    fn default() -> (r: Self)
        ensures
            r.url@ == "redis://127.0.0.1/"@,
            r.enabled,
    {
        Self { url: default_redis_url(), enabled: true }
    }
}

impl Default for MetricsConfig {
    fn default() -> (r: Self)
        ensures
            r.enabled,
            r.listen_addr@ == "0.0.0.0:9091"@,
    {
        Self { enabled: true, listen_addr: default_metrics_addr() }
    }
}

impl Default for UpfConfig {
    /// The configuration when no file is found: every section at its own
    /// default.
    fn default() -> (r: Self)
        ensures
            r.interfaces.n3_iface is None && r.interfaces.n3_addr is None && r.interfaces.n6_iface is None
                && r.interfaces.ue_deliver_iface is None,
            r.pfcp.n4_addr is None && r.pfcp.n4_port == 0,
            r.peers.gnb_mac is None && r.peers.gnb_addr is None && r.peers.smf_addr is None,
            r.redis.url@ == "redis://127.0.0.1/"@ && r.redis.enabled,
            r.metrics.enabled && r.metrics.listen_addr@ == "0.0.0.0:9091"@,
    {
        Self {
            interfaces: InterfacesConfig::default(),
            pfcp: PfcpConfig::default(),
            peers: PeersConfig::default(),
            redis: RedisConfig::default(),
            metrics: MetricsConfig::default(),
        }
    }
}

} // verus!

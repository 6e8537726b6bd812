//! The SMF simulator's configuration, and the values of the settings that a
//! configuration file leaves out.
use vstd::prelude::*;
use crate::net::Ipv4Addr;

verus! {

pub struct SimConfig {
    pub network: NetworkConfig,
    pub session: SessionConfig,
    pub timing: TimingConfig,
}

pub struct NetworkConfig {
    pub smf_n4_addr: Ipv4Addr,
    pub upf_n4_addr: Ipv4Addr,
    pub upf_n4_port: u16,
    pub gnb_addr: Ipv4Addr,
    pub gnb_gtpu_port: u16,
}

pub struct SessionConfig {
    pub ue_ip_pool_start: Ipv4Addr,
    pub ue_ip_pool_end: Ipv4Addr,
    pub gnb_teid_start: u32,
    pub max_session: u32,
}

#[derive(Debug, Clone, Copy, PartialEq, Eq, Structural)]
pub struct TimingConfig {
    pub heartbeat_interval_sec: u64,
    pub response_timeout_ms: u64,
    pub max_retries: u32,
}

pub fn default_pfcp_port() -> (r: u16)
    ensures
        r == 8805,
{
    8805
}

pub fn default_gtpu_port() -> (r: u16)
    ensures
        r == 2152,
{
    2152
}

pub fn default_gnb_teid_start() -> (r: u32)
    ensures
        r == 0x80000001,
{
    0x80000001
}

pub fn default_max_sessions() -> (r: u32)
    ensures
        r == 100,
{
    100
}

pub fn default_heartbeat_interval() -> (r: u64)
    ensures
        r == 15,
{
    15
}

pub fn default_response_timeout() -> (r: u64)
    ensures
        r == 5000,
{
    5000
}

pub fn default_max_retries() -> (r: u32)
    ensures
        r == 3,
{
    3
}

} // verus!

//! A 5G User Plane Function: the PFCP control plane that keeps per-SMF
//! associations and the rule tables of each session, the GTP-U data plane
//! that decapsulates uplink and encapsulates downlink traffic by those
//! tables, and an SMF simulator that drives it over PFCP.
pub mod builder;
pub mod bytes;
pub mod header;
pub mod ie;
pub mod net;
pub mod types;
pub mod roundtrip;
pub mod messages;
pub mod dict;
pub mod clock;
pub mod dataplane;
pub mod gtpu;
pub mod xdp;
pub mod text;
pub mod upf_command;
pub mod sim_command;
pub mod validator;
pub mod fmt;
pub mod dump;
pub mod config;
pub mod sim_config;
pub mod sim_state;
pub mod console;
pub mod sim_flow;
pub mod tui_log;
pub mod usage;
pub mod setup;
pub mod store;
pub mod association;
pub mod server;
pub mod session;
pub mod lifecycle;
pub mod scenario;
pub mod keepalive;
pub mod exchange;

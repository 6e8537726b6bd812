use std::time::Instant;

use upf_edge::association::SessionData;
use upf_edge::config::{config_path, default_metrics_addr, default_redis_url, UpfConfig};
use upf_edge::console::{sim_execute_command, upf_execute_command, ConsoleAction, SessionEntry};
use upf_edge::dump::print_hex;
use upf_edge::net::Ipv4Addr;
use upf_edge::setup::{
    gnb_mac_source, neigh_mac, override_ipv4_with_config, override_with_config, parse_mac, GnbMacSource,
    SetupError,
};
use upf_edge::sim_command::Command;
use upf_edge::sim_config::{default_gnb_teid_start, default_heartbeat_interval, default_max_retries};
use upf_edge::sim_state::SimSession;
use upf_edge::store::{session_fields, session_from_record, session_key, KEY_PREFIX};
use upf_edge::tui_log::{LogBuffer, LogEntry, LOG_CAPACITY};
use upf_edge::usage::{
    total_urr_stats, urr_trigger, UrrConfig, UrrReporter, UrrStats,
};

fn texts(actions: &[ConsoleAction]) -> Vec<String> {
    actions
        .iter()
        .map(|a| match a {
            ConsoleAction::Log(s) => s.clone(),
            ConsoleAction::ClearLogs => "<clear>".to_string(),
            ConsoleAction::Quit => "<quit>".to_string(),
            ConsoleAction::Run(c) => format!("<run {:?}>", c),
        })
        .collect()
}

fn entry() -> SessionEntry {
    SessionEntry {
        seid: 1,
        ue_ip: Ipv4Addr::new(10, 60, 0, 1),
        teid: 1000,
        gnb_ip: Ipv4Addr::new(192, 168, 1, 100),
        duration: Instant::now(),
    }
}

#[test]
fn upf_console_lists_sessions() {
    assert_eq!(texts(&upf_execute_command("show sessions", &vec![])), vec!["> show sessions", "no session"]);
    assert_eq!(
        texts(&upf_execute_command("show sessions", &vec![entry()])),
        vec![
            "> show sessions",
            " Total 1 sessions(s)",
            "  SEID=0x1  UE=10.60.0.1  TEID=0x3e8  gNB=192.168.1.100",
        ]
    );
}

#[test]
fn upf_console_shows_one_session() {
    assert_eq!(
        texts(&upf_execute_command("show session 0x1", &vec![entry()])),
        vec![
            "> show session 0x1",
            "  SEID    : 0x1",
            "  UE IP   : 10.60.0.1",
            "  TEID    : 0x3e8",
            "  gNB IP  : 192.168.1.100",
        ]
    );
    assert_eq!(
        texts(&upf_execute_command("show session 2", &vec![entry()])),
        vec!["> show session 2", "  SEID    : 0x2 없음"]
    );
}

#[test]
fn upf_console_clear_quit_and_errors() {
    assert_eq!(texts(&upf_execute_command("clear", &vec![])), vec!["> clear", "<clear>"]);
    assert_eq!(texts(&upf_execute_command("q", &vec![])), vec!["> q", "<quit>"]);
    assert_eq!(
        texts(&upf_execute_command("foo", &vec![])),
        vec!["> foo", "  명령어 파싱 실패: 알 수 없는 명령어: 'foo'"]
    );
    let help = texts(&upf_execute_command("help", &vec![]));
    assert_eq!(help[0], "> help");
    assert!(help.iter().any(|l| l.contains("show sessions")));
}

#[test]
fn sim_console_runs_upf_commands() {
    assert_eq!(
        texts(&sim_execute_command("add session 3", &vec![])),
        vec!["> add session 3".to_string(), format!("<run {:?}>", Command::AddSession { count: 3 })]
    );
    assert_eq!(
        texts(&sim_execute_command("hb", &vec![])),
        vec!["> hb".to_string(), format!("<run {:?}>", Command::Heartbeat)]
    );
    let s = SimSession {
        cp_seid: 7,
        upf_seid: 2,
        upf_teid: 1001,
        upf_n3_addr: Ipv4Addr::new(10, 45, 0, 4),
        ue_ip: Ipv4Addr::new(10, 60, 0, 2),
        gnb_teid: 5,
        created_at: Instant::now(),
    };
    assert_eq!(
        texts(&sim_execute_command("show sessions", &vec![s])),
        vec!["> show sessions", " Total 1 sessions(s)", "  SEID=0x2  UE=10.60.0.2  TEID=0x3e9  gNB=10.45.0.4"]
    );
    assert_eq!(
        texts(&sim_execute_command("show session 2", &vec![s])),
        vec!["> show session 2", "  SEID    : 0x2", "  UE IP   : 10.60.0.2", "  TEID    : 0x7", "  gNB IP  : 10.45.0.4"]
    );
}

#[test]
fn hex_dump_lines() {
    let bytes: Vec<u8> = (0u8..20).collect();
    let lines = print_hex(&bytes, 100);
    assert_eq!(lines[0], "Message DUMP (20 Bytes)");
    assert_eq!(lines[1], "===================================");
    assert_eq!(lines[2], "0000: 0001 0203 | 0405 0607 | 0809 0a0b | 0c0d 0e0f ");
    assert_eq!(lines[3], "0010: 1011 1213");
    assert_eq!(lines[4], "");
    assert_eq!(lines.len(), 5);
    let short = print_hex(&bytes, 3);
    assert_eq!(short[0], "Message DUMP (3 Bytes)");
    assert_eq!(short[2], "0000: 0001 02");
}

#[test]
fn log_keeps_newest_lines() {
    let mut log = LogBuffer::new();
    for i in 0..(LOG_CAPACITY + 5) {
        log.push(LogEntry::at("00:00:00".to_string(), format!("line {}", i)));
    }
    assert_eq!(log.len(), LOG_CAPACITY);
    assert_eq!(log.entries().front().unwrap().message, "line 5");
    assert_eq!(log.entries().back().unwrap().message, format!("line {}", LOG_CAPACITY + 4));
    log.clear();
    assert_eq!(log.len(), 0);
    let stamped = LogEntry::at("12:34:56".to_string(), "hello".to_string());
    assert_eq!(stamped.time, "12:34:56");
    assert_eq!(stamped.message, "hello");
}

#[test]
fn settings_override() {
    assert_eq!(override_with_config("eth1", "eth0", Some("eth2")), "eth1");
    assert_eq!(override_with_config("eth0", "eth0", Some("eth2")), "eth2");
    assert_eq!(override_with_config("eth0", "eth0", None), "eth0");
    let d = Ipv4Addr::new(127, 0, 0, 1);
    assert_eq!(override_ipv4_with_config(d, d, Some("10.0.0.5")).unwrap(), Ipv4Addr::new(10, 0, 0, 5));
    assert_eq!(override_ipv4_with_config(Ipv4Addr::new(1, 2, 3, 4), d, Some("10.0.0.5")).unwrap(), Ipv4Addr::new(1, 2, 3, 4));
    assert!(matches!(override_ipv4_with_config(d, d, Some("10.0.0")), Err(SetupError::InvalidIp(s)) if s == "10.0.0"));
}

#[test]
fn mac_addresses() {
    assert_eq!(parse_mac(" aa:bb:cc:0:1:ff ").unwrap(), [0xaa, 0xbb, 0xcc, 0, 1, 0xff]);
    assert!(matches!(parse_mac("aa:bb:cc:dd:ee"), Err(SetupError::InvalidMac(_))));
    assert!(matches!(parse_mac("aa:bb:cc:dd:ee:gg"), Err(SetupError::InvalidMac(_))));
    assert!(matches!(gnb_mac_source(Some("01:02:03:04:05:06"), None), Ok(GnbMacSource::Static([1, 2, 3, 4, 5, 6]))));
    assert!(matches!(gnb_mac_source(None, Some("192.168.1.100")), Ok(GnbMacSource::Learn(a)) if a == Ipv4Addr::new(192, 168, 1, 100)));
    assert!(matches!(gnb_mac_source(None, Some("nowhere")), Err(SetupError::InvalidIp(_))));
    assert!(matches!(gnb_mac_source(None, None), Err(SetupError::GnbMacUnknown)));
}

#[test]
fn neighbour_table_line() {
    let line = "192.168.1.100 dev eth0 lladdr 52:54:00:12:34:56 REACHABLE\n";
    assert_eq!(neigh_mac(line).unwrap(), Some([0x52, 0x54, 0x00, 0x12, 0x34, 0x56]));
    assert_eq!(neigh_mac("192.168.1.100 dev eth0 FAILED").unwrap(), None);
    assert!(matches!(neigh_mac("x lladdr 52:54:00:12:34:zz y"), Err(SetupError::InvalidMac(w)) if w == "52:54:00:12:34:zz"));
}

#[test]
fn session_store_record_roundtrip() {
    assert_eq!(KEY_PREFIX, "upf:session:");
    assert_eq!(session_key(42), "upf:session:42");
    let d = SessionData {
        ue_ip: Ipv4Addr::new(10, 60, 0, 1),
        teid: 1000,
        gnb_ip: Ipv4Addr::new(192, 168, 1, 100),
        cp_seid: 0xABCD,
    };
    let f = session_fields(&d);
    assert_eq!(f[0], ("ue_ip", "10.60.0.1".to_string()));
    assert_eq!(f[1], ("teid", "1000".to_string()));
    assert_eq!(f[2], ("gnb_ip", "192.168.1.100".to_string()));
    assert_eq!(f[3], ("cp_seid", "43981".to_string()));
    let back = session_from_record(
        &session_key(42),
        Some(f[0].1.as_str()),
        Some(f[1].1.as_str()),
        Some(f[2].1.as_str()),
        Some(f[3].1.as_str()),
    )
    .unwrap();
    assert_eq!(back.0, 42);
    assert_eq!(back.1.ue_ip, d.ue_ip);
    assert_eq!(back.1.teid, d.teid);
    assert_eq!(back.1.gnb_ip, d.gnb_ip);
    assert_eq!(back.1.cp_seid, d.cp_seid);
}

#[test]
fn session_store_bad_fields_default() {
    assert!(session_from_record("upf:session:x", None, None, None, None).is_none());
    let (seid, d) = session_from_record("upf:session:7", Some("bad"), None, Some("1.2.3.4"), Some("9")).unwrap();
    assert_eq!(seid, 7);
    assert_eq!(d.ue_ip, Ipv4Addr::new(0, 0, 0, 0));
    assert_eq!(d.teid, 0);
    assert_eq!(d.gnb_ip, Ipv4Addr::new(1, 2, 3, 4));
    assert_eq!(d.cp_seid, 9);
}

#[test]
fn config_defaults() {
    assert_eq!(default_redis_url(), "redis://127.0.0.1/");
    assert_eq!(default_metrics_addr(), "0.0.0.0:9091");
    assert_eq!(config_path(None), "upf-edge/configs/upf-edge-default.toml");
    assert_eq!(config_path(Some("x.toml")), "x.toml");
    let c = UpfConfig::default();
    assert!(c.redis.enabled);
    assert!(c.metrics.enabled);
    assert_eq!(default_gnb_teid_start(), 0x80000001);
    assert_eq!(default_heartbeat_interval(), 15);
    assert_eq!(default_max_retries(), 3);
}

#[test]
fn usage_totals_and_triggers() {
    let per_cpu = [
        UrrStats { ul_bytes: 10, dl_bytes: 20, ul_packets: 1, dl_packets: 2 },
        UrrStats { ul_bytes: 5, dl_bytes: 7, ul_packets: 3, dl_packets: 4 },
    ];
    let t = total_urr_stats(&per_cpu);
    assert_eq!((t.ul_bytes, t.dl_bytes, t.ul_packets, t.dl_packets), (15, 27, 4, 6));

    let now = Instant::now();
    let mut cfg = UrrConfig {
        cp_seid: 9,
        reporting_triggers: 0x02,
        volume_threshold_total: Some(40),
        measurement_period: None,
        threshold_reported: false,
        last_report: now,
        ur_seqn: 0,
    };
    assert_eq!(urr_trigger(&mut cfg, 39, 0, now), 0);
    assert_eq!(urr_trigger(&mut cfg, 42, 0, now), 0x02);
    assert!(cfg.threshold_reported);
    assert_eq!(urr_trigger(&mut cfg, 50, 0, now), 0);

    let mut rep = UrrReporter::new();
    assert!(rep.report_for(0x0001_0001, t, 0, now).is_none());
    let mut c2 = cfg;
    c2.threshold_reported = false;
    rep.configs.insert(0x0001_0001, c2);
    let big = UrrStats { ul_bytes: 30, dl_bytes: 30, ul_packets: 1, dl_packets: 1 };
    let msg = rep.report_for(0x0001_0001, big, 0, now).unwrap();
    assert!(!msg.is_empty());
    assert_eq!(rep.next_report_seq, 2);
    assert_eq!(rep.configs.get(&0x0001_0001).unwrap().ur_seqn, 1);
    assert!(rep.report_for(0x0001_0001, big, 0, now).is_none());
}

#[test]
fn address_octets_roundtrip() {
    let a = Ipv4Addr::new(192, 168, 1, 100);
    assert_eq!(a.octets(), [192, 168, 1, 100]);
    assert_eq!(a.to_bits(), 0xC0A8_0164);
    assert_eq!(Ipv4Addr::from_bits(0x0A00_0001), Ipv4Addr::new(10, 0, 0, 1));
}

#[test]
fn ue_delivery_interface() {
    assert_eq!(upf_edge::setup::deliver_iface(None), "upfedge1");
    assert_eq!(upf_edge::setup::deliver_iface(Some("veth9")), "veth9");
}

#[test]
fn reporting_round_sends_due_reports_to_the_smf() {
    let now = Instant::now();
    let mut rep = UrrReporter::new();
    rep.configs.insert(
        0x0001_0003,
        UrrConfig {
            cp_seid: 9,
            reporting_triggers: 0x02,
            volume_threshold_total: Some(40),
            measurement_period: None,
            threshold_reported: false,
            last_report: now,
            ur_seqn: 0,
        },
    );
    let peer = upf_edge::net::SocketAddr::new_v4(Ipv4Addr::new(10, 0, 0, 1), 8805);
    let totals = vec![
        (0x0001_0003u64, UrrStats { ul_bytes: 30, dl_bytes: 30, ul_packets: 1, dl_packets: 1 }),
        (0x0002_0001u64, UrrStats { ul_bytes: 99, dl_bytes: 0, ul_packets: 1, dl_packets: 0 }),
    ];
    assert!(rep.collect_reports(&totals, None, now).is_empty());
    assert_eq!(rep.next_report_seq, 1);
    let out = rep.collect_reports(&totals, Some(peer), now);
    assert_eq!(out.len(), 1);
    assert_eq!(out[0].0, peer);
    assert_eq!(rep.next_report_seq, 2);
    assert!(rep.collect_reports(&totals, Some(peer), now).is_empty());
}

#[test]
fn first_deliver_iface_wins() {
    let mut cell = upf_edge::setup::DeliverIface::new();
    assert_eq!(cell.get(), "upfedge1");
    cell.set_ue_deliver_iface("veth1".to_string());
    cell.set_ue_deliver_iface("veth2".to_string());
    assert_eq!(cell.get(), "veth1");
}

use upf_edge::sim_command::Command;
use upf_edge::upf_command::UpfCommand;

#[test]
fn command_parse_show_sessions() {
    assert!(matches!(Command::from_input("show sessions").unwrap(), Command::ShowSessions));
    assert!(matches!(Command::from_input("session list").unwrap(), Command::ShowSessions));
}

#[test]
fn parse_add_session() {
    let cmd = Command::from_input("add session 3").unwrap();
    assert!(matches!(cmd, Command::AddSession { count: 3 }));
}

#[test]
fn command_parse_seid_hex() {
    let cmd = Command::from_input("del session 0x01").unwrap();
    assert!(matches!(cmd, Command::DelSession { seid: 1 }));
}

#[test]
fn parse_unknown() {
    assert!(Command::from_input("foo bar").is_err());
}

#[test]
fn parse_show_sessions() {
    assert!(matches!(UpfCommand::from_input("show sessions").unwrap(), UpfCommand::ShowSessions));
}

#[test]
fn parse_seid_hex() {
    let cmd = UpfCommand::from_input("show session 0x02").unwrap();
    assert!(matches!(cmd, UpfCommand::ShowSession { seid: 2 }));
}

#[test]
fn parse_quit() {
    assert!(matches!(UpfCommand::from_input("q").unwrap(), UpfCommand::Quit));
}

#[test]
fn add_session_defaults_to_one() {
    assert_eq!(Command::from_input("  add   session ").unwrap(), Command::AddSession { count: 1 });
}

#[test]
fn add_session_count_must_be_a_u32() {
    let e = Command::from_input("add session 4294967296").unwrap_err();
    assert_eq!(e.0, "input integer number");
    assert_eq!(Command::from_input("add session +7").unwrap(), Command::AddSession { count: 7 });
    assert!(Command::from_input("add session -1").is_err());
}

#[test]
fn seid_in_decimal_and_upper_hex() {
    assert_eq!(Command::from_input("show session 42").unwrap(), Command::ShowSession { seid: 42 });
    assert_eq!(Command::from_input("show session 0XfF").unwrap(), Command::ShowSession { seid: 255 });
    let e = Command::from_input("del session 0x").unwrap_err();
    assert_eq!(e.0, "Wrong SEID: 0x");
    let e = UpfCommand::from_input("show session zz").unwrap_err();
    assert_eq!(e.0, "Wrong SEID format: zz");
}

#[test]
fn empty_and_unknown_messages() {
    assert_eq!(UpfCommand::from_input("   ").unwrap_err().0, "빈 명령어");
    assert_eq!(Command::from_input("  foo bar \t").unwrap_err().0, "알 수 없는 명령어: 'foo bar'");
    assert!(UpfCommand::from_input("add session").is_err());
}

#[test]
fn aliases() {
    assert_eq!(Command::from_input("hb").unwrap(), Command::Heartbeat);
    assert_eq!(Command::from_input("?").unwrap(), Command::Help);
    assert_eq!(UpfCommand::from_input("exit").unwrap(), UpfCommand::Quit);
    assert_eq!(UpfCommand::from_input("clear").unwrap(), UpfCommand::Clear);
    assert!(UpfCommand::help_text().contains("show sessions"));
    assert!(Command::help_text().starts_with("Commands:"));
}

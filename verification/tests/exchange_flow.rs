use upf_edge::builder::{build_association_setup_response, build_heartbeat_request, build_heartbeat_response};
use upf_edge::exchange::{exchange_step, Exchange, ExchangeAction, ExchangeInput};
use upf_edge::header::PfcpHeader;
use upf_edge::net::Ipv4Addr;
use upf_edge::types::{PFCP_ASSOCIATION_SETUP_RSP, PFCP_HEARTBEAT_RSP};

#[test]
fn exchange_delivers_the_awaited_response() {
    let mut x = Exchange::new(2);
    let rsp = build_association_setup_response(5, Ipv4Addr::new(10, 0, 0, 10), 9);
    match exchange_step(&mut x, PFCP_ASSOCIATION_SETUP_RSP, ExchangeInput::Received(rsp.clone())) {
        ExchangeAction::Deliver(m) => assert_eq!(m, rsp),
        _ => panic!("expected the response"),
    }
    assert_eq!(x, Exchange { attempt: 0, max_retries: 2 });
}

#[test]
fn exchange_answers_upf_heartbeat_and_keeps_listening() {
    let mut x = Exchange::new(2);
    let hb = build_heartbeat_request(77, 1);
    match exchange_step(&mut x, PFCP_ASSOCIATION_SETUP_RSP, ExchangeInput::Received(hb)) {
        ExchangeAction::Answer(m) => {
            let (h, _) = PfcpHeader::decode(&m).unwrap();
            assert_eq!(h.msg_type, PFCP_HEARTBEAT_RSP);
            assert_eq!(h.seq_num, 77);
        }
        _ => panic!("expected an answer"),
    }
    // Another response type, or bytes that do not decode, are passed over.
    let other = build_heartbeat_response(3, 1);
    assert!(matches!(
        exchange_step(&mut x, PFCP_ASSOCIATION_SETUP_RSP, ExchangeInput::Received(other)),
        ExchangeAction::Listen
    ));
    assert!(matches!(
        exchange_step(&mut x, PFCP_ASSOCIATION_SETUP_RSP, ExchangeInput::Received(vec![1, 2])),
        ExchangeAction::Listen
    ));
    assert_eq!(x.attempt, 0);
}

#[test]
fn exchange_retries_then_gives_up() {
    let mut x = Exchange::new(2);
    assert!(matches!(exchange_step(&mut x, PFCP_HEARTBEAT_RSP, ExchangeInput::TimedOut), ExchangeAction::Resend));
    assert_eq!(x.attempt, 1);
    assert!(matches!(exchange_step(&mut x, PFCP_HEARTBEAT_RSP, ExchangeInput::RecvFailed), ExchangeAction::Resend));
    assert_eq!(x.attempt, 2);
    assert!(matches!(exchange_step(&mut x, PFCP_HEARTBEAT_RSP, ExchangeInput::TimedOut), ExchangeAction::GiveUp));
    assert_eq!(x.attempt, 2);
}

//! What the operator consoles do with a line of input: the lines they log,
//! and the actions they take (clearing the log, quitting, or, on the SMF
//! simulator, running a command against the UPF).
use vstd::prelude::*;
use std::time::Instant;
use crate::fmt::{dec_digits, hex_prefixed, ipv4_text, push_dec, push_hex_prefixed, push_ipv4};
use crate::net::Ipv4Addr;
use crate::sim_command::{spec_command, Command, SIM_HELP};
use crate::sim_state::SimSession;
use crate::upf_command::{spec_upf_command, UpfCommand, UPF_HELP};

verus! {

/// A session as the UPF console lists it.
#[derive(Clone, Copy)]
pub struct SessionEntry {
    pub seid: u64,
    pub ue_ip: Ipv4Addr,
    pub teid: u32,
    pub gnb_ip: Ipv4Addr,
    pub duration: Instant,
}

/// One thing a console does, in order.
pub enum ConsoleAction {
    Log(String),
    ClearLogs,
    Quit,
    /// Run a command that talks to the UPF.
    Run(Command),
}

pub enum ActionView {
    Log(Seq<char>),
    ClearLogs,
    Quit,
    Run(Command),
}

impl View for ConsoleAction {
    type V = ActionView;

    open spec fn view(&self) -> ActionView {
        match self {
            ConsoleAction::Log(s) => ActionView::Log(s@),
            ConsoleAction::ClearLogs => ActionView::ClearLogs,
            ConsoleAction::Quit => ActionView::Quit,
            ConsoleAction::Run(c) => ActionView::Run(*c),
        }
    }
}

/// The actions a list of actions stands for.
pub open spec fn actions_view(v: Seq<ConsoleAction>) -> Seq<ActionView> {
    v.map_values(|a: ConsoleAction| a@)
}

// ── Lines of text ───────────────────────────────────────────────────────

/// `s` without one carriage return at its end.
pub open spec fn strip_cr(s: Seq<char>) -> Seq<char> {
    if s.len() > 0 && s.last() == '\r' {
        s.drop_last()
    } else {
        s
    }
}

pub open spec fn lines_fold(s: Seq<char>) -> (Seq<Seq<char>>, Seq<char>)
    decreases s.len(),
{
    if s.len() == 0 {
        (Seq::empty(), Seq::empty())
    } else {
        let (done, cur) = lines_fold(s.drop_last());
        if s.last() == '\n' {
            (done.push(strip_cr(cur)), Seq::empty())
        } else {
            (done, cur.push(s.last()))
        }
    }
}

/// The lines of `s` as `str::lines` gives them: split after each newline,
/// a carriage return before a newline dropped, no empty line after a final
/// newline.
pub open spec fn spec_lines(s: Seq<char>) -> Seq<Seq<char>> {
    let (done, cur) = lines_fold(s);
    if cur.len() > 0 {
        done.push(cur)
    } else {
        done
    }
}

fn split_lines(s: &str) -> (r: Vec<&str>)
    ensures
        r@.len() == spec_lines(s@).len(),
        forall|k: int| 0 <= k < r@.len() ==> #[trigger] r@[k]@ == spec_lines(s@)[k],
{
    let n = s.unicode_len();
    let mut out: Vec<&str> = Vec::new();
    let mut start: usize = 0;
    let mut i: usize = 0;
    while i < n
        invariant
            0 <= start <= i <= n,
            n == s@.len(),
            ({
                let (done, cur) = lines_fold(s@.take(i as int));
                &&& out@.len() == done.len()
                &&& forall|k: int| 0 <= k < out@.len() ==> #[trigger] out@[k]@ == done[k]
                &&& cur == s@.subrange(start as int, i as int)
            }),
        decreases n - i,
    {
        let c = s.get_char(i);
        proof {
            assert(s@.take(i + 1).drop_last() =~= s@.take(i as int));
            assert(s@.take(i + 1).last() == c);
        }
        if c == '\n' {
            let end = if i > start && s.get_char(i - 1) == '\r' {
                i - 1
            } else {
                i
            };
            proof {
                let cur = s@.subrange(start as int, i as int);
                if i > start {
                    assert(cur.last() == s@[i - 1]);
                }
                assert(strip_cr(cur) =~= s@.subrange(start as int, end as int));
            }
            out.push(s.substring_char(start, end));
            start = i + 1;
        } else {
            proof {
                assert(s@.subrange(start as int, i + 1) =~= s@.subrange(start as int, i as int).push(c));
            }
        }
        i += 1;
    }
    assert(s@.take(n as int) =~= s@);
    if start < n {
        out.push(s.substring_char(start, n));
    }
    out
}

// ── Text of the UPF console ─────────────────────────────────────────────

pub open spec fn upf_session_line(e: SessionEntry) -> Seq<char> {
    "  SEID="@ + hex_prefixed(e.seid as nat) + "  UE="@ + ipv4_text(e.ue_ip) + "  TEID="@
        + hex_prefixed(e.teid as nat) + "  gNB="@ + ipv4_text(e.gnb_ip)
}

/// The index of the first entry with SEID `seid`, from `i` on.
pub open spec fn first_entry(v: Seq<SessionEntry>, seid: u64, i: int) -> Option<int>
    decreases v.len() - i,
{
    if i < 0 || i >= v.len() {
        None
    } else if v[i].seid == seid {
        Some(i)
    } else {
        first_entry(v, seid, i + 1)
    }
}

pub open spec fn log_all(lines: Seq<Seq<char>>) -> Seq<ActionView> {
    lines.map_values(|l: Seq<char>| ActionView::Log(l))
}

pub open spec fn total_line(n: nat) -> Seq<char> {
    " Total "@ + dec_digits(n) + " sessions(s)"@
}

pub open spec fn detail_lines(seid: u64, ue: Ipv4Addr, teid: nat, gnb: Ipv4Addr) -> Seq<ActionView> {
    seq![
        ActionView::Log("  SEID    : "@ + hex_prefixed(seid as nat)),
        ActionView::Log("  UE IP   : "@ + ipv4_text(ue)),
        ActionView::Log("  TEID    : "@ + hex_prefixed(teid)),
        ActionView::Log("  gNB IP  : "@ + ipv4_text(gnb)),
    ]
}

pub open spec fn missing_line(seid: u64) -> Seq<char> {
    "  SEID    : "@ + hex_prefixed(seid as nat) + " 없음"@
}

/// What the UPF console does with `input`, given the sessions it lists:
/// it echoes the input, then answers the command or says why it is none.
pub open spec fn spec_upf_console(input: Seq<char>, sessions: Seq<SessionEntry>) -> Seq<ActionView> {
    seq![ActionView::Log("> "@ + input)] + match spec_upf_command(input) {
        Ok(UpfCommand::ShowSessions) => if sessions.len() == 0 {
            seq![ActionView::Log("no session"@)]
        } else {
            seq![ActionView::Log(total_line(sessions.len()))] + log_all(
                sessions.map_values(|e: SessionEntry| upf_session_line(e)),
            )
        },
        Ok(UpfCommand::ShowSession { seid }) => match first_entry(sessions, seid, 0) {
            Some(k) => detail_lines(
                sessions[k].seid,
                sessions[k].ue_ip,
                sessions[k].teid as nat,
                sessions[k].gnb_ip,
            ),
            None => seq![ActionView::Log(missing_line(seid))],
        },
        Ok(UpfCommand::Clear) => seq![ActionView::ClearLogs],
        Ok(UpfCommand::Help) => log_all(spec_lines(UPF_HELP@)),
        Ok(UpfCommand::Quit) => seq![ActionView::Quit],
        Err(m) => seq![ActionView::Log("  명령어 파싱 실패: "@ + m)],
    }
}

// ── Text of the SMF simulator's console ─────────────────────────────────

pub open spec fn sim_session_line(s: SimSession) -> Seq<char> {
    "  SEID="@ + hex_prefixed(s.upf_seid as nat) + "  UE="@ + ipv4_text(s.ue_ip) + "  TEID="@
        + hex_prefixed(s.upf_teid as nat) + "  gNB="@ + ipv4_text(s.upf_n3_addr)
}

pub open spec fn first_sim_session(v: Seq<SimSession>, seid: u64, i: int) -> Option<int>
    decreases v.len() - i,
{
    if i < 0 || i >= v.len() {
        None
    } else if v[i].upf_seid == seid {
        Some(i)
    } else {
        first_sim_session(v, seid, i + 1)
    }
}

/// What the simulator's console does with `input`, given its sessions. The
/// detail of a session shows its UPF SEID, UE address, SMF SEID (under
/// "TEID") and the UPF's N3 address (under "gNB IP"); commands that talk
/// to the UPF are handed on to be run.
pub open spec fn spec_sim_console(input: Seq<char>, sessions: Seq<SimSession>) -> Seq<ActionView> {
    seq![ActionView::Log("> "@ + input)] + match spec_command(input) {
        Ok(Command::ShowSessions) => if sessions.len() == 0 {
            seq![ActionView::Log("no session"@)]
        } else {
            seq![ActionView::Log(total_line(sessions.len()))] + log_all(
                sessions.map_values(|s: SimSession| sim_session_line(s)),
            )
        },
        Ok(Command::ShowSession { seid }) => match first_sim_session(sessions, seid, 0) {
            Some(k) => detail_lines(
                sessions[k].upf_seid,
                sessions[k].ue_ip,
                sessions[k].cp_seid as nat,
                sessions[k].upf_n3_addr,
            ),
            None => seq![ActionView::Log(missing_line(seid))],
        },
        Ok(Command::Clear) => seq![ActionView::ClearLogs],
        Ok(Command::Help) => log_all(spec_lines(SIM_HELP@)),
        Ok(Command::Quit) => seq![ActionView::Quit],
        Ok(c) => seq![ActionView::Run(c)],
        Err(m) => seq![ActionView::Log("  명령어 파싱 실패: "@ + m)],
    }
}

// ── Building the actions ────────────────────────────────────────────────

fn text(lit: &str) -> (r: String)
    ensures
        r@ == lit@,
{
    String::from_str(lit)
}

fn push_log(out: &mut Vec<ConsoleAction>, line: String)
    ensures
        actions_view(final(out)@) == actions_view(old(out)@).push(ActionView::Log(line@)),
{
    let ghost before = out@;
    out.push(ConsoleAction::Log(line));
    assert(actions_view(out@) =~= actions_view(before).push(ActionView::Log(line@)));
}

fn push_action(out: &mut Vec<ConsoleAction>, a: ConsoleAction)
    ensures
        actions_view(final(out)@) == actions_view(old(out)@).push(a@),
{
    let ghost before = out@;
    let ghost av = a@;
    out.push(a);
    assert(actions_view(out@) =~= actions_view(before).push(av));
}

fn log_help(out: &mut Vec<ConsoleAction>, help: &str)
    ensures
        actions_view(final(out)@) == actions_view(old(out)@) + log_all(spec_lines(help@)),
{
    let lines = split_lines(help);
    let ghost before = actions_view(out@);
    let ghost all = spec_lines(help@);
    let mut i: usize = 0;
    while i < lines.len()
        invariant
            0 <= i <= lines@.len(),
            lines@.len() == all.len(),
            forall|k: int| 0 <= k < lines@.len() ==> #[trigger] lines@[k]@ == all[k],
            actions_view(out@) == before + log_all(all.take(i as int)),
        decreases lines@.len() - i,
    {
        push_log(out, text(lines[i]));
        proof {
            assert(log_all(all.take(i + 1)) =~= log_all(all.take(i as int)).push(ActionView::Log(all[i as int])));
        }
        i += 1;
    }
    assert(all.take(all.len() as int) =~= all);
}

fn detail_actions(out: &mut Vec<ConsoleAction>, seid: u64, ue: Ipv4Addr, teid: u64, gnb: Ipv4Addr)
    ensures
        actions_view(final(out)@) == actions_view(old(out)@) + detail_lines(seid, ue, teid as nat, gnb),
{
    let ghost before = actions_view(out@);
    let mut l1 = text("  SEID    : ");
    push_hex_prefixed(&mut l1, seid);
    push_log(out, l1);
    let mut l2 = text("  UE IP   : ");
    push_ipv4(&mut l2, ue);
    push_log(out, l2);
    let mut l3 = text("  TEID    : ");
    push_hex_prefixed(&mut l3, teid);
    push_log(out, l3);
    let mut l4 = text("  gNB IP  : ");
    push_ipv4(&mut l4, gnb);
    push_log(out, l4);
    assert(actions_view(out@) =~= before + detail_lines(seid, ue, teid as nat, gnb));
}

fn missing_action(out: &mut Vec<ConsoleAction>, seid: u64)
    ensures
        actions_view(final(out)@) == actions_view(old(out)@).push(ActionView::Log(missing_line(seid))),
{
    let mut l = text("  SEID    : ");
    push_hex_prefixed(&mut l, seid);
    l.append(" 없음");
    push_log(out, l);
}

fn total_action(out: &mut Vec<ConsoleAction>, n: usize)
    ensures
        actions_view(final(out)@) == actions_view(old(out)@).push(ActionView::Log(total_line(n as nat))),
{
    let mut l = text(" Total ");
    push_dec(&mut l, n as u64);
    l.append(" sessions(s)");
    push_log(out, l);
}

fn upf_session_text(e: &SessionEntry) -> (r: String)
    ensures
        r@ == upf_session_line(*e),
{
    let mut l = text("  SEID=");
    push_hex_prefixed(&mut l, e.seid);
    l.append("  UE=");
    push_ipv4(&mut l, e.ue_ip);
    l.append("  TEID=");
    push_hex_prefixed(&mut l, e.teid as u64);
    l.append("  gNB=");
    push_ipv4(&mut l, e.gnb_ip);
    l
}

fn sim_session_text(s: &SimSession) -> (r: String)
    ensures
        r@ == sim_session_line(*s),
{
    let mut l = text("  SEID=");
    push_hex_prefixed(&mut l, s.upf_seid);
    l.append("  UE=");
    push_ipv4(&mut l, s.ue_ip);
    l.append("  TEID=");
    push_hex_prefixed(&mut l, s.upf_teid as u64);
    l.append("  gNB=");
    push_ipv4(&mut l, s.upf_n3_addr);
    l
}

fn echo(input: &str) -> (r: Vec<ConsoleAction>)
    ensures
        actions_view(r@) == seq![ActionView::Log("> "@ + input@)],
{
    let mut out: Vec<ConsoleAction> = Vec::new();
    let mut l = text("> ");
    l.append(input);
    push_log(&mut out, l);
    out
}

fn parse_failure(out: &mut Vec<ConsoleAction>, msg: &String)
    ensures
        actions_view(final(out)@) == actions_view(old(out)@).push(
            ActionView::Log("  명령어 파싱 실패: "@ + msg@),
        ),
{
    let mut l = text("  명령어 파싱 실패: ");
    l.append(msg.as_str());
    push_log(out, l);
}

/// What the UPF console does with a line of input.
pub fn upf_execute_command(input: &str, sessions: &Vec<SessionEntry>) -> (r: Vec<ConsoleAction>)
    ensures
        actions_view(r@) == spec_upf_console(input@, sessions@),
{
    let mut out = echo(input);
    let ghost head = actions_view(out@);
    match UpfCommand::from_input(input) {
        Ok(UpfCommand::ShowSessions) => {
            if sessions.len() == 0 {
                push_log(&mut out, text("no session"));
            } else {
                total_action(&mut out, sessions.len());
                let ghost mid = actions_view(out@);
                let ghost all = sessions@.map_values(|e: SessionEntry| upf_session_line(e));
                let mut i: usize = 0;
                while i < sessions.len()
                    invariant
                        0 <= i <= sessions@.len(),
                        all == sessions@.map_values(|e: SessionEntry| upf_session_line(e)),
                        actions_view(out@) == mid + log_all(all.take(i as int)),
                    decreases sessions@.len() - i,
                {
                    push_log(&mut out, upf_session_text(&sessions[i]));
                    proof {
                        assert(log_all(all.take(i + 1)) =~= log_all(all.take(i as int)).push(
                            ActionView::Log(all[i as int]),
                        ));
                    }
                    i += 1;
                }
                assert(all.take(all.len() as int) =~= all);
            }
        },
        Ok(UpfCommand::ShowSession { seid }) => {
            let mut i: usize = 0;
            let mut found: Option<usize> = None;
            while i < sessions.len() && found.is_none()
                invariant
                    0 <= i <= sessions@.len(),
                    found is None ==> first_entry(sessions@, seid, 0) == first_entry(sessions@, seid, i as int),
                    found matches Some(k) ==> first_entry(sessions@, seid, 0) == Some(k as int) && k < sessions@.len(),
                decreases sessions@.len() - i + (if found is None {
                    1int
                } else {
                    0int
                }),
            {
                if sessions[i].seid == seid {
                    found = Some(i);
                } else {
                    i += 1;
                }
            }
            match found {
                Some(k) => {
                    let e = sessions[k];
                    detail_actions(&mut out, e.seid, e.ue_ip, e.teid as u64, e.gnb_ip);
                },
                None => missing_action(&mut out, seid),
            }
        },
        Ok(UpfCommand::Clear) => push_action(&mut out, ConsoleAction::ClearLogs),
        Ok(UpfCommand::Help) => log_help(&mut out, UPF_HELP),
        Ok(UpfCommand::Quit) => push_action(&mut out, ConsoleAction::Quit),
        Err(e) => parse_failure(&mut out, &e.0),
    }
    assert(actions_view(out@) =~= spec_upf_console(input@, sessions@));
    out
}

/// What the SMF simulator's console does with a line of input.
pub fn sim_execute_command(input: &str, sessions: &Vec<SimSession>) -> (r: Vec<ConsoleAction>)
    ensures
        actions_view(r@) == spec_sim_console(input@, sessions@),
{
    let mut out = echo(input);
    match Command::from_input(input) {
        Ok(Command::ShowSessions) => {
            if sessions.len() == 0 {
                push_log(&mut out, text("no session"));
            } else {
                total_action(&mut out, sessions.len());
                let ghost mid = actions_view(out@);
                let ghost all = sessions@.map_values(|s: SimSession| sim_session_line(s));
                let mut i: usize = 0;
                while i < sessions.len()
                    invariant
                        0 <= i <= sessions@.len(),
                        all == sessions@.map_values(|s: SimSession| sim_session_line(s)),
                        actions_view(out@) == mid + log_all(all.take(i as int)),
                    decreases sessions@.len() - i,
                {
                    push_log(&mut out, sim_session_text(&sessions[i]));
                    proof {
                        assert(log_all(all.take(i + 1)) =~= log_all(all.take(i as int)).push(
                            ActionView::Log(all[i as int]),
                        ));
                    }
                    i += 1;
                }
                assert(all.take(all.len() as int) =~= all);
            }
        },
        Ok(Command::ShowSession { seid }) => {
            let mut i: usize = 0;
            let mut found: Option<usize> = None;
            while i < sessions.len() && found.is_none()
                invariant
                    0 <= i <= sessions@.len(),
                    found is None ==> first_sim_session(sessions@, seid, 0) == first_sim_session(
                        sessions@,
                        seid,
                        i as int,
                    ),
                    found matches Some(k) ==> first_sim_session(sessions@, seid, 0) == Some(k as int) && k
                        < sessions@.len(),
                decreases sessions@.len() - i + (if found is None {
                    1int
                } else {
                    0int
                }),
            {
                if sessions[i].upf_seid == seid {
                    found = Some(i);
                } else {
                    i += 1;
                }
            }
            match found {
                Some(k) => {
                    let s = sessions[k];
                    detail_actions(&mut out, s.upf_seid, s.ue_ip, s.cp_seid, s.upf_n3_addr);
                },
                None => missing_action(&mut out, seid),
            }
        },
        Ok(Command::Clear) => push_action(&mut out, ConsoleAction::ClearLogs),
        Ok(Command::Help) => log_help(&mut out, SIM_HELP),
        Ok(Command::Quit) => push_action(&mut out, ConsoleAction::Quit),
        Ok(c) => push_action(&mut out, ConsoleAction::Run(c)),
        Err(e) => parse_failure(&mut out, &e.0),
    }
    assert(actions_view(out@) =~= spec_sim_console(input@, sessions@));
    out
}

} // verus!

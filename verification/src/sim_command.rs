//! Commands typed into the SMF simulator's console.
use vstd::prelude::*;
use crate::text::{parse_unsigned, spec_parse_unsigned, spec_trim, spec_words, split_words, trim};
use crate::upf_command::{is_one, is_two, parse_seid, spec_parse_seid, starts_two_of_three, word_is};

verus! {

#[derive(Debug, Clone, Copy, PartialEq, Eq, Structural)]
pub enum Command {
    ShowSessions,
    ShowSession { seid: u64 },
    AddSession { count: u32 },
    DelSession { seid: u64 },
    Heartbeat,
    Clear,
    Help,
    Quit,
}

/// Why a line is not a command, in words for the operator.
#[derive(Debug)]
pub struct ParseError(pub String);

impl ParseError {
    pub open spec fn message(&self) -> Seq<char> {
        self.0@
    }
}

pub const SIM_HELP: &'static str = "Commands:
            show sessions          — 전체 세션 목록
            show session <seid>    — 특정 세션 상세 (seid: 0x01 or 1)
            add session [N]        — N개 세션 추가 (기본 1)
            del session <seid>     — 세션 삭제
            heartbeat / hb         — Heartbeat 수동 전송
            clear                  — 로그 초기화
            help / ?               — 도움말
            quit / q               — 종료
        ";

/// The command a line holds, or the message that says why it holds none.
pub open spec fn spec_command(input: Seq<char>) -> Result<Command, Seq<char>> {
    let w = spec_words(input);
    if is_two(w, "show", "sessions") || is_two(w, "session", "list") {
        Ok(Command::ShowSessions)
    } else if starts_two_of_three(w, "show", "session") {
        match spec_parse_seid(w[2]) {
            Some(seid) => Ok(Command::ShowSession { seid }),
            None => Err("Wrong SEID: "@ + w[2]),
        }
    } else if is_two(w, "add", "session") {
        Ok(Command::AddSession { count: 1 })
    } else if starts_two_of_three(w, "add", "session") {
        match spec_parse_unsigned(w[2], 10, u32::MAX as nat) {
            Some(n) => Ok(Command::AddSession { count: n as u32 }),
            None => Err("input integer number"@),
        }
    } else if starts_two_of_three(w, "del", "session") {
        match spec_parse_seid(w[2]) {
            Some(seid) => Ok(Command::DelSession { seid }),
            None => Err("Wrong SEID: "@ + w[2]),
        }
    } else if is_one(w, "heartbeat") || is_one(w, "hb") {
        Ok(Command::Heartbeat)
    } else if is_one(w, "clear") {
        Ok(Command::Clear)
    } else if is_one(w, "help") || is_one(w, "?") {
        Ok(Command::Help)
    } else if is_one(w, "quit") || is_one(w, "exit") || is_one(w, "q") {
        Ok(Command::Quit)
    } else if w.len() == 0 {
        Err("빈 명령어"@)
    } else {
        Err("알 수 없는 명령어: '"@ + spec_trim(input) + "'"@)
    }
}

fn seid_error(w: &str) -> (r: ParseError)
    ensures
        r.message() == "Wrong SEID: "@ + w@,
{
    let mut m = String::from_str("Wrong SEID: ");
    m.append(w);
    ParseError(m)
}

impl Command {
    /// Reads a command from a line of input.
    pub fn from_input(input: &str) -> (r: Result<Command, ParseError>)
        ensures
            match spec_command(input@) {
                Ok(c) => r == Ok::<Command, ParseError>(c),
                Err(m) => r matches Err(e) && e.message() == m,
            },
    {
        let words = split_words(input);
        let n = words.len();
        if n == 2 && ((word_is(&words, 0, "show") && word_is(&words, 1, "sessions")) || (word_is(
            &words,
            0,
            "session",
        ) && word_is(&words, 1, "list"))) {
            return Ok(Command::ShowSessions);
        }
        if n == 3 && word_is(&words, 0, "show") && word_is(&words, 1, "session") {
            return match parse_seid(words[2]) {
                Some(seid) => Ok(Command::ShowSession { seid }),
                None => Err(seid_error(words[2])),
            };
        }
        if n == 2 && word_is(&words, 0, "add") && word_is(&words, 1, "session") {
            return Ok(Command::AddSession { count: 1 });
        }
        if n == 3 && word_is(&words, 0, "add") && word_is(&words, 1, "session") {
            return match parse_unsigned(words[2], 10, u32::MAX as u64) {
                Some(count) => Ok(Command::AddSession { count: count as u32 }),
                None => Err(ParseError(String::from_str("input integer number"))),
            };
        }
        if n == 3 && word_is(&words, 0, "del") && word_is(&words, 1, "session") {
            return match parse_seid(words[2]) {
                Some(seid) => Ok(Command::DelSession { seid }),
                None => Err(seid_error(words[2])),
            };
        }
        if n == 1 {
            if word_is(&words, 0, "heartbeat") || word_is(&words, 0, "hb") {
                return Ok(Command::Heartbeat);
            }
            if word_is(&words, 0, "clear") {
                return Ok(Command::Clear);
            }
            if word_is(&words, 0, "help") || word_is(&words, 0, "?") {
                return Ok(Command::Help);
            }
            if word_is(&words, 0, "quit") || word_is(&words, 0, "exit") || word_is(&words, 0, "q") {
                return Ok(Command::Quit);
            }
        }
        if n == 0 {
            return Err(ParseError(String::from_str("빈 명령어")));
        }
        let mut m = String::from_str("알 수 없는 명령어: '");
        m.append(trim(input));
        m.append("'");
        Err(ParseError(m))
    }

    /// The help text listing the commands.
    pub fn help_text() -> (r: &'static str)
        ensures
            r == SIM_HELP,
    {
        SIM_HELP
    }
}

} // verus!

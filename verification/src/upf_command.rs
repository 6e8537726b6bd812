//! Commands typed into the UPF's console.
use vstd::prelude::*;
use crate::text::{parse_unsigned, same_text, spec_parse_unsigned, spec_trim, spec_words, split_words, trim};

verus! {

#[derive(Debug, Clone, Copy, PartialEq, Eq, Structural)]
pub enum UpfCommand {
    ShowSessions,
    ShowSession { seid: u64 },
    Clear,
    Help,
    Quit,
}

/// Why a line is not a command, in words for the operator.
#[derive(Debug)]
pub struct ParseError(pub String);

impl ParseError {
    pub open spec fn message(&self) -> Seq<char> {
        self.0@
    }
}

pub const UPF_HELP: &'static str = "
            show sessions          — 전체 세션 목록
            show session <seid>    — 특정 세션 상세 (seid: 0x01 or 1)
            clear                  — 로그 초기화
            help / ?               — 도움말
            quit / q               — 종료
        ";

/// A SEID written in decimal, or in hexadecimal after `0x` or `0X`.
pub open spec fn spec_parse_seid(w: Seq<char>) -> Option<u64> {
    let v = if w.len() >= 2 && w[0] == '0' && (w[1] == 'x' || w[1] == 'X') {
        spec_parse_unsigned(w.subrange(2, w.len() as int), 16, u64::MAX as nat)
    } else {
        spec_parse_unsigned(w, 10, u64::MAX as nat)
    };
    match v {
        Some(n) => Some(n as u64),
        None => None,
    }
}

pub open spec fn is_one(w: Seq<Seq<char>>, a: &str) -> bool {
    w.len() == 1 && w[0] == a@
}

pub open spec fn is_two(w: Seq<Seq<char>>, a: &str, b: &str) -> bool {
    w.len() == 2 && w[0] == a@ && w[1] == b@
}

pub open spec fn starts_two_of_three(w: Seq<Seq<char>>, a: &str, b: &str) -> bool {
    w.len() == 3 && w[0] == a@ && w[1] == b@
}

/// The command a line holds, or the message that says why it holds none.
pub open spec fn spec_upf_command(input: Seq<char>) -> Result<UpfCommand, Seq<char>> {
    let w = spec_words(input);
    if is_two(w, "show", "sessions") || is_two(w, "session", "list") {
        Ok(UpfCommand::ShowSessions)
    } else if starts_two_of_three(w, "show", "session") {
        match spec_parse_seid(w[2]) {
            Some(seid) => Ok(UpfCommand::ShowSession { seid }),
            None => Err("Wrong SEID format: "@ + w[2]),
        }
    } else if is_one(w, "clear") {
        Ok(UpfCommand::Clear)
    } else if is_one(w, "help") || is_one(w, "?") {
        Ok(UpfCommand::Help)
    } else if is_one(w, "quit") || is_one(w, "exit") || is_one(w, "q") {
        Ok(UpfCommand::Quit)
    } else if w.len() == 0 {
        Err("빈 명령어"@)
    } else {
        Err("알 수 없는 명령어: '"@ + spec_trim(input) + "'"@)
    }
}

pub(crate) fn word_is(words: &Vec<&str>, i: usize, lit: &str) -> (r: bool)
    requires
        i < words@.len(),
    ensures
        r == (words@[i as int]@ == lit@),
{
    same_text(words[i], lit)
}

/// A SEID written in decimal, or in hexadecimal after `0x` or `0X`.
pub(crate) fn parse_seid(w: &str) -> (r: Option<u64>)
    ensures
        r == spec_parse_seid(w@),
{
    let n = w.unicode_len();
    if n >= 2 && w.get_char(0) == '0' && (w.get_char(1) == 'x' || w.get_char(1) == 'X') {
        let hex = w.substring_char(2, n);
        parse_unsigned(hex, 16, u64::MAX)
    } else {
        parse_unsigned(w, 10, u64::MAX)
    }
}

impl UpfCommand {
    /// Reads a command from a line of input.
    pub fn from_input(input: &str) -> (r: Result<UpfCommand, ParseError>)
        ensures
            match spec_upf_command(input@) {
                Ok(c) => r == Ok::<UpfCommand, ParseError>(c),
                Err(m) => r matches Err(e) && e.message() == m,
            },
    {
        let words = split_words(input);
        let n = words.len();
        if n == 2 && ((word_is(&words, 0, "show") && word_is(&words, 1, "sessions")) || (word_is(
            &words,
            0,
            "session",
        ) && word_is(&words, 1, "list"))) {
            return Ok(UpfCommand::ShowSessions);
        }
        if n == 3 && word_is(&words, 0, "show") && word_is(&words, 1, "session") {
            return match parse_seid(words[2]) {
                Some(seid) => Ok(UpfCommand::ShowSession { seid }),
                None => {
                    let mut m = String::from_str("Wrong SEID format: ");
                    m.append(words[2]);
                    Err(ParseError(m))
                },
            };
        }
        if n == 1 {
            if word_is(&words, 0, "clear") {
                return Ok(UpfCommand::Clear);
            }
            if word_is(&words, 0, "help") || word_is(&words, 0, "?") {
                return Ok(UpfCommand::Help);
            }
            if word_is(&words, 0, "quit") || word_is(&words, 0, "exit") || word_is(&words, 0, "q") {
                return Ok(UpfCommand::Quit);
            }
        }
        if n == 0 {
            return Err(ParseError(String::from_str("빈 명령어")));
        }
        let mut m = String::from_str("알 수 없는 명령어: '");
        m.append(trim(input));
        m.append("'");
        Err(ParseError(m))
    }

    /// The help text listing the commands.
    pub fn help_text() -> (r: &'static str)
        ensures
            r == UPF_HELP,
    {
        UPF_HELP
    }
}

} // verus!

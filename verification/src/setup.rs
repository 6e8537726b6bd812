//! Start-up decisions of the UPF: which setting wins between the command
//! line and the configuration file, and reading MAC addresses.
use vstd::prelude::*;
use crate::net::Ipv4Addr;
use crate::text::{
    find_from, find_text, occurs_at, is_white, is_white_space, parse_ipv4, parse_unsigned, spec_parse_ipv4,
    spec_parse_unsigned, spec_split, spec_trim, split_on, trim,
};

verus! {

/// The value of a text setting: the command line's where it differs from
/// its default, else the file's where it has one, else the command line's.
pub open spec fn spec_override(cli_value: Seq<char>, cli_default: Seq<char>, config_value: Option<Seq<char>>) -> Seq<char> {
    if cli_value != cli_default {
        cli_value
    } else {
        match config_value {
            Some(c) => c,
            None => cli_value,
        }
    }
}

pub fn override_with_config(cli_value: &str, cli_default: &str, config_value: Option<&str>) -> (r: String)
    ensures
        r@ == spec_override(
            cli_value@,
            cli_default@,
            match config_value {
                Some(c) => Some(c@),
                None => None,
            },
        ),
{
    if !crate::text::same_text(cli_value, cli_default) {
        String::from_str(cli_value)
    } else {
        match config_value {
            Some(c) => String::from_str(c),
            None => String::from_str(cli_value),
        }
    }
}

/// A setting that is not a valid value.
#[derive(Debug)]
pub enum SetupError {
    /// An IPv4 address that does not read as one.
    InvalidIp(String),
    /// A MAC address that does not read as six colon-separated hex bytes.
    InvalidMac(String),
    /// Neither a gNB MAC nor a gNB address is configured.
    GnbMacUnknown,
}

/// The interface that delivers packets to the UEs: the one configured,
/// else `upfedge1`.
pub fn deliver_iface(configured: Option<&str>) -> (r: &str)
    ensures
        r@ == match configured {
            Some(s) => s@,
            None => "upfedge1"@,
        },
{
    match configured {
        Some(s) => s,
        None => "upfedge1",
    }
}

/// The interface that delivers packets to the UEs, as set at start-up: the
/// first name set stays, later ones change nothing.
pub struct DeliverIface {
    name: Option<String>,
}

impl View for DeliverIface {
    type V = Option<Seq<char>>;

    closed spec fn view(&self) -> Option<Seq<char>> {
        match self.name {
            Some(n) => Some(n@),
            None => None,
        }
    }
}

impl DeliverIface {
    /// No interface set yet.
    pub fn new() -> (r: Self)
        ensures
            r@ is None,
    {
        DeliverIface { name: None }
    }

    /// Sets the interface, unless one is set already.
    pub fn set_ue_deliver_iface(&mut self, iface: String)
        ensures
            final(self)@ == match old(self)@ {
                Some(n) => Some(n),
                None => Some(iface@),
            },
    {
        if self.name.is_none() {
            self.name = Some(iface);
        }
    }

    /// The interface set, else `upfedge1`.
    pub fn get(&self) -> (r: &str)
        ensures
            r@ == match self@ {
                Some(n) => n,
                None => "upfedge1"@,
            },
    {
        match &self.name {
            Some(n) => deliver_iface(Some(n.as_str())),
            None => deliver_iface(None),
        }
    }
}

/// The value of an address setting: the command line's where it differs
/// from its default, else the file's (which must read as an address) where
/// it has one, else the command line's.
pub fn override_ipv4_with_config(cli_value: Ipv4Addr, cli_default: Ipv4Addr, config_value: Option<&str>) -> (r:
    Result<Ipv4Addr, SetupError>)
    ensures
        cli_value != cli_default ==> r == Ok::<Ipv4Addr, SetupError>(cli_value),
        cli_value == cli_default ==> match config_value {
            None => r == Ok::<Ipv4Addr, SetupError>(cli_value),
            Some(c) => match spec_parse_ipv4(c@) {
                Some(a) => r == Ok::<Ipv4Addr, SetupError>(a),
                None => r matches Err(SetupError::InvalidIp(s)) && s@ == c@,
            },
        },
{
    if cli_value.bits != cli_default.bits {
        return Ok(cli_value);
    }
    match config_value {
        Some(c) => match parse_ipv4(c) {
            Some(a) => Ok(a),
            None => Err(SetupError::InvalidIp(String::from_str(c))),
        },
        None => Ok(cli_value),
    }
}

/// The hex bytes of `parts`, where each reads as one (as
/// `u8::from_str_radix` reads it).
pub open spec fn hex_bytes(parts: Seq<Seq<char>>) -> Option<Seq<u8>>
    decreases parts.len(),
{
    if parts.len() == 0 {
        Some(Seq::empty())
    } else {
        match (hex_bytes(parts.drop_last()), spec_parse_unsigned(parts.last(), 16, 255)) {
            (Some(b), Some(v)) => Some(b.push(v as u8)),
            _ => None,
        }
    }
}

/// A MAC address as `aa:bb:cc:dd:ee:ff`: surrounding white space dropped,
/// six colon-separated fields, each a hex byte.
pub open spec fn spec_parse_mac(s: Seq<char>) -> Option<Seq<u8>> {
    let parts = spec_split(spec_trim(s), ':');
    if parts.len() == 6 {
        hex_bytes(parts)
    } else {
        None
    }
}

proof fn lemma_hex_bytes_prefix(parts: Seq<Seq<char>>, i: int)
    requires
        0 <= i <= parts.len(),
        hex_bytes(parts.take(i)) is None,
    ensures
        hex_bytes(parts) is None,
    decreases parts.len() - i,
{
    if i < parts.len() {
        assert(parts.take(i + 1).drop_last() =~= parts.take(i));
        lemma_hex_bytes_prefix(parts, i + 1);
    } else {
        assert(parts.take(i) =~= parts);
    }
}

pub fn parse_mac(s: &str) -> (r: Result<[u8; 6], SetupError>)
    ensures
        match spec_parse_mac(s@) {
            Some(m) => r matches Ok(a) && a@ == m,
            None => r matches Err(SetupError::InvalidMac(t)) && t@ == s@,
        },
{
    let parts = split_on(trim(s), ':');
    let ghost ps = spec_split(spec_trim(s@), ':');
    let mut bytes: Vec<u8> = Vec::new();
    let mut i: usize = 0;
    while i < parts.len()
        invariant
            0 <= i <= parts@.len(),
            parts@.len() == ps.len(),
            ps == spec_split(spec_trim(s@), ':'),
            forall|k: int| 0 <= k < parts@.len() ==> #[trigger] parts@[k]@ == ps[k],
            hex_bytes(ps.take(i as int)) == Some(bytes@),
            bytes@.len() == i,
        decreases parts@.len() - i,
    {
        proof {
            assert(ps.take(i + 1).drop_last() =~= ps.take(i as int));
            assert(ps.take(i + 1).last() == ps[i as int]);
            assert(parts@[i as int]@ == ps[i as int]);
        }
        match parse_unsigned(parts[i], 16, 255) {
            Some(v) => bytes.push(v as u8),
            None => {
                proof {
                    lemma_hex_bytes_prefix(ps, i + 1);
                }
                return Err(SetupError::InvalidMac(String::from_str(s)));
            },
        }
        i += 1;
    }
    assert(ps.take(ps.len() as int) =~= ps);
    if bytes.len() != 6 {
        return Err(SetupError::InvalidMac(String::from_str(s)));
    }
    let mac: [u8; 6] = [bytes[0], bytes[1], bytes[2], bytes[3], bytes[4], bytes[5]];
    assert(mac@ =~= bytes@);
    Ok(mac)
}

/// Where the gNB's MAC address comes from: the configured MAC, or ARP for
/// the configured address.
#[derive(Debug, Clone, Copy)]
pub enum GnbMacSource {
    Static([u8; 6]),
    Learn(Ipv4Addr),
}

/// The configured MAC wins (and must be valid); else the configured address
/// (which must be valid) is to be looked up; with neither, the MAC is
/// unknown.
pub fn gnb_mac_source(config_mac: Option<&str>, config_addr: Option<&str>) -> (r: Result<GnbMacSource, SetupError>)
    ensures
        match (config_mac, config_addr) {
            (Some(m), _) => match spec_parse_mac(m@) {
                Some(b) => r matches Ok(GnbMacSource::Static(a)) && a@ == b,
                None => r matches Err(SetupError::InvalidMac(_)),
            },
            (None, Some(s)) => match spec_parse_ipv4(s@) {
                Some(a) => r matches Ok(GnbMacSource::Learn(b)) && b == a,
                None => r matches Err(SetupError::InvalidIp(t)) && t@ == s@,
            },
            (None, None) => r matches Err(SetupError::GnbMacUnknown),
        },
{
    if let Some(m) = config_mac {
        return match parse_mac(m) {
            Ok(a) => Ok(GnbMacSource::Static(a)),
            Err(e) => Err(e),
        };
    }
    if let Some(s) = config_addr {
        return match parse_ipv4(s) {
            Some(a) => Ok(GnbMacSource::Learn(a)),
            None => Err(SetupError::InvalidIp(String::from_str(s))),
        };
    }
    Err(SetupError::GnbMacUnknown)
}

/// The MAC address that an `ip neigh show` line gives after "lladdr ": the
/// word there, where it has six colon-separated fields that read as a MAC
/// (the word itself as the error where they do not); none where there is
/// no "lladdr " or the word has another number of fields.
pub open spec fn spec_neigh_mac(out: Seq<char>) -> Result<Option<Seq<u8>>, Seq<char>> {
    match find_from(out, "lladdr "@, 0) {
        None => Ok(None),
        Some(i) => {
            let rest = out.subrange(i + 7, out.len() as int);
            let word = rest.take(first_white(rest, 0));
            if spec_split(word, ':').len() == 6 {
                match spec_parse_mac(word) {
                    Some(m) => Ok(Some(m)),
                    None => Err(word),
                }
            } else {
                Ok(None)
            }
        },
    }
}

/// The index of the first white space character at or after `i` (the
/// length where there is none).
pub open spec fn first_white(s: Seq<char>, i: int) -> int
    decreases s.len() - i,
{
    if i < 0 || i >= s.len() {
        s.len() as int
    } else if is_white_space(s[i]) {
        i
    } else {
        first_white(s, i + 1)
    }
}

proof fn lemma_first_white_bound(s: Seq<char>, i: int)
    requires
        0 <= i <= s.len(),
    ensures
        i <= first_white(s, i) <= s.len(),
    decreases s.len() - i,
{
    if i < s.len() && !is_white_space(s[i]) {
        lemma_first_white_bound(s, i + 1);
    }
}

proof fn lemma_find_from(s: Seq<char>, p: Seq<char>, k: int)
    requires
        0 <= k,
        find_from(s, p, k) is Some,
    ensures
        occurs_at(s, p, find_from(s, p, k).unwrap()),
    decreases s.len() + 1 - k,
{
    if k + p.len() <= s.len() && !occurs_at(s, p, k) {
        lemma_find_from(s, p, k + 1);
    }
}

pub fn neigh_mac(out: &str) -> (r: Result<Option<[u8; 6]>, SetupError>)
    ensures
        match spec_neigh_mac(out@) {
            Ok(None) => r matches Ok(None),
            Ok(Some(m)) => r matches Ok(Some(a)) && a@ == m,
            Err(w) => r matches Err(SetupError::InvalidMac(t)) && t@ == w,
        },
{
    proof {
        reveal_strlit("lladdr ");
    }
    let i = match find_text(out, "lladdr ") {
        Some(i) => i,
        None => {
            return Ok(None);
        },
    };
    let n = out.unicode_len();
    proof {
        lemma_find_from(out@, "lladdr "@, 0);
    }
    let rest = out.substring_char(i + 7, n);
    let m = rest.unicode_len();
    let mut j: usize = 0;
    while j < m && !is_white(rest.get_char(j))
        invariant
            0 <= j <= m,
            m == rest@.len(),
            first_white(rest@, 0) == first_white(rest@, j as int),
        decreases m - j,
    {
        j += 1;
    }
    proof {
        lemma_first_white_bound(rest@, j as int);
    }
    let word = rest.substring_char(0, j);
    assert(word@ =~= rest@.take(first_white(rest@, 0)));
    let fields = split_on(word, ':');
    if fields.len() == 6 {
        match parse_mac(word) {
            Ok(a) => Ok(Some(a)),
            Err(e) => Err(e),
        }
    } else {
        Ok(None)
    }
}

} // verus!

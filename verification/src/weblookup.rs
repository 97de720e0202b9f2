//! Public-address discovery: the verified half. The probe body is a
//! plain-text document with a line `ip=<address>`; this module
//! extracts the first such line and parses the address, and rejects an
//! answer of the wrong family. The HTTP probe itself — bound to the
//! interface's local address, under an explicit timeout — happens
//! outside.
use vstd::prelude::*;

use crate::ip::{IpAddress, V4Addr, V6Addr};
use crate::ip_text::{
    parse_ip, spec_parse_ip, spec_split, split_chars, to_char_vec, views_of,
};

verus! {

/// Failure of one public-address lookup.
#[derive(Clone, Debug, PartialEq, Eq)]
pub enum LookupError {
    /// The probe client could not be built on the local address (the
    /// interface may have vanished mid-run).
    ClientCreation(String),
    /// The probe could not connect.
    Connection(String),
    /// The probe failed in some other transport way.
    Reqwest(String),
    /// The probe answered, but its body yielded no address.
    Parsing(TraceParseError),
    /// The probe answered with an address of the other family.
    WrongIpVersion { expected: String, got: String },
    /// The probe timed out.
    Timeout(String),
}

/// Why a probe body yielded no address.
#[derive(Clone, Copy, Debug, PartialEq, Eq, Structural)]
pub enum TraceParseError {
    /// No `ip=` line is present.
    NotPresent,
    /// The value after `ip=` is not a textual address.
    Parsing,
}

/// A line, its trailing carriage return (of CRLF endings) removed.
pub open spec fn strip_cr(l: Seq<char>) -> Seq<char> {
    if l.len() > 0 && l.last() == '\r' {
        l.drop_last()
    } else {
        l
    }
}

/// Whether a line carries the address marker.
pub open spec fn is_ip_line(l: Seq<char>) -> bool {
    l.len() >= 3 && l[0] == 'i' && l[1] == 'p' && l[2] == '='
}

/// The first marker line among the lines, if any.
pub open spec fn first_ip_line(p: Seq<Seq<char>>) -> Option<Seq<char>>
    decreases p.len(),
{
    if p.len() == 0 {
        None
    } else if is_ip_line(strip_cr(p[0])) {
        Some(strip_cr(p[0]))
    } else {
        first_ip_line(p.skip(1))
    }
}

pub open spec fn is_space(c: char) -> bool {
    c == ' ' || c == '\t'
}

pub open spec fn trim_start(s: Seq<char>) -> Seq<char>
    decreases s.len(),
{
    if s.len() > 0 && is_space(s[0]) {
        trim_start(s.skip(1))
    } else {
        s
    }
}

pub open spec fn trim_end(s: Seq<char>) -> Seq<char>
    decreases s.len(),
{
    if s.len() > 0 && is_space(s.last()) {
        trim_end(s.drop_last())
    } else {
        s
    }
}

pub open spec fn trim(s: Seq<char>) -> Seq<char> {
    trim_end(trim_start(s))
}

/// The address text a probe body carries: the value after the first
/// line's `ip=` marker, trimmed of surrounding blanks.
pub open spec fn spec_ip_value_text(s: Seq<char>) -> Option<Seq<char>> {
    match first_ip_line(spec_split(s, '\n')) {
        None => None,
        Some(l) => Some(trim(l.skip(3))),
    }
}

proof fn lemma_first_ip_line(p: Seq<Seq<char>>, i: int)
    requires
        0 <= i <= p.len(),
        forall|j: int| 0 <= j < i ==> !is_ip_line(strip_cr(#[trigger] p[j])),
    ensures
        i == p.len() ==> first_ip_line(p) is None,
        i < p.len() && is_ip_line(strip_cr(p[i])) ==> first_ip_line(p) == Some(strip_cr(p[i])),
    decreases i,
{
    if i > 0 {
        lemma_first_ip_line(p.skip(1), i - 1);
    }
}

proof fn lemma_trim_start(s: Seq<char>, j: int)
    requires
        0 <= j <= s.len(),
        forall|k: int| 0 <= k < j ==> is_space(s[k]),
        j < s.len() ==> !is_space(s[j]),
    ensures
        trim_start(s) == s.skip(j),
    decreases j,
{
    if j == 0 {
        assert(s.skip(0) =~= s);
    } else {
        lemma_trim_start(s.skip(1), j - 1);
        assert(s.skip(1).skip(j - 1) =~= s.skip(j));
    }
}

proof fn lemma_trim_end(s: Seq<char>, h: int)
    requires
        0 <= h <= s.len(),
        forall|k: int| h <= k < s.len() ==> is_space(s[k]),
        h > 0 ==> !is_space(s[h - 1]),
    ensures
        trim_end(s) == s.take(h),
    decreases s.len(),
{
    if h == s.len() {
        if s.len() == 0 || !is_space(s.last()) {
            assert(s.take(h) =~= s);
        } else {
            assert(false);
        }
    } else {
        lemma_trim_end(s.drop_last(), h);
        assert(s.drop_last().take(h) =~= s.take(h));
    }
}

/// Extracts the public address from a probe body: the first line
/// starting `ip=` carries it; a missing line or an unparsable value is
/// a hard parse error.
pub fn extract_ip_from_trace(text: &str) -> (r: Result<IpAddress, TraceParseError>)
    ensures
        match spec_ip_value_text(text@) {
            None => r == Err::<IpAddress, TraceParseError>(TraceParseError::NotPresent),
            Some(v) => match spec_parse_ip(v) {
                Some(ip) => r == Ok::<IpAddress, TraceParseError>(ip),
                None => r == Err::<IpAddress, TraceParseError>(TraceParseError::Parsing),
            },
        },
{
    let chars = to_char_vec(text);
    let lines = split_chars(&chars, '\n');
    let nl = lines.len();
    let ghost lv = views_of(lines@);
    proof {
        assert(lv.len() == nl);
        assert(forall|k: int| 0 <= k < nl ==> lv[k] == lines@[k]@);
    }
    let mut li: usize = 0;
    while li < nl
        invariant
            nl == lines@.len(),
            lv == views_of(lines@),
            lv == spec_split(text@, '\n'),
            li <= nl,
            forall|j: int| 0 <= j < li ==> !is_ip_line(strip_cr(#[trigger] lv[j])),
        decreases nl - li,
    {
        let line = &lines[li];
        // The line without a trailing carriage return is `line[..m]`.
        let mut m = line.len();
        if m > 0 && line[m - 1] == '\r' {
            m = m - 1;
        }
        proof {
            assert(strip_cr(line@) =~= line@.take(m as int));
        }
        if m >= 3 && line[0] == 'i' && line[1] == 'p' && line[2] == '=' {
            proof {
                assert(lv[li as int] == line@);
                lemma_first_ip_line(lv, li as int);
            }
            let ghost l2 = strip_cr(line@);
            // Trim blanks off `line[3..m]`.
            let mut lo: usize = 3;
            let mut hi: usize = m;
            while lo < hi && (line[lo] == ' ' || line[lo] == '\t')
                invariant
                    3 <= lo <= hi,
                    hi == m <= line@.len(),
                    forall|k: int| 3 <= k < lo ==> is_space(line@[k]),
                decreases hi - lo,
            {
                lo += 1;
            }
            let ghost lo_done: int = lo as int;
            while hi > lo && (line[hi - 1] == ' ' || line[hi - 1] == '\t')
                invariant
                    3 <= lo <= hi <= m <= line@.len(),
                    lo == lo_done,
                    forall|k: int| hi <= k < m ==> is_space(line@[k]),
                decreases hi - lo,
            {
                hi -= 1;
            }
            proof {
                assert(l2.skip(3) =~= line@.subrange(3, m as int));
                lemma_trim_start(l2.skip(3), lo - 3);
                assert(l2.skip(3).skip(lo - 3) =~= line@.subrange(lo as int, m as int));
                lemma_trim_end(line@.subrange(lo as int, m as int), hi - lo);
                assert(line@.subrange(lo as int, m as int).take(hi - lo) =~= line@.subrange(
                    lo as int,
                    hi as int,
                ));
                assert(trim(l2.skip(3)) == line@.subrange(lo as int, hi as int));
            }
            let mut value: Vec<char> = Vec::new();
            let mut k: usize = lo;
            while k < hi
                invariant
                    lo <= k <= hi <= line@.len(),
                    value@ =~= line@.subrange(lo as int, k as int),
                decreases hi - k,
            {
                value.push(line[k]);
                k += 1;
                proof {
                    assert(value@ =~= line@.subrange(lo as int, k as int));
                }
            }
            proof {
                assert(value@ =~= line@.subrange(lo as int, hi as int));
                assert(first_ip_line(spec_split(text@, '\n')) == Some(l2));
                assert(spec_ip_value_text(text@) == Some(trim(l2.skip(3))));
                assert(trim(l2.skip(3)) == value@);
            }
            return match parse_ip(&value) {
                Some(ip) => Ok(ip),
                None => Err(TraceParseError::Parsing),
            };
        }
        li += 1;
    }
    proof {
        lemma_first_ip_line(lv, nl as int);
    }
    Err(TraceParseError::NotPresent)
}

/// Accepts a probe answer for the IPv4 family, rejecting (never
/// coercing) an IPv6 answer.
pub fn expect_public_ipv4(ip: IpAddress) -> (r: Result<V4Addr, LookupError>)
    ensures
        ip matches IpAddress::V4(a) ==> r == Ok::<V4Addr, LookupError>(a),
        ip is V6 ==> (r matches Err(LookupError::WrongIpVersion { expected, got }) && expected@
            == "IPv4"@ && got@ == "IPv6"@),
{
    match ip {
        IpAddress::V4(a) => Ok(a),
        IpAddress::V6(_) => Err(
            LookupError::WrongIpVersion { expected: "IPv4".to_owned(), got: "IPv6".to_owned() },
        ),
    }
}

/// Accepts a probe answer for the IPv6 family, rejecting (never
/// coercing) an IPv4 answer.
pub fn expect_public_ipv6(ip: IpAddress) -> (r: Result<V6Addr, LookupError>)
    ensures
        ip matches IpAddress::V6(a) ==> r == Ok::<V6Addr, LookupError>(a),
        ip is V4 ==> (r matches Err(LookupError::WrongIpVersion { expected, got }) && expected@
            == "IPv6"@ && got@ == "IPv4"@),
{
    match ip {
        IpAddress::V6(a) => Ok(a),
        IpAddress::V4(_) => Err(
            LookupError::WrongIpVersion { expected: "IPv6".to_owned(), got: "IPv4".to_owned() },
        ),
    }
}

} // verus!

//! The collector endpoint: the grammar `scheme "://" host [":" port]` that a
//! configured endpoint must satisfy, and a verified parser for it. A malformed
//! endpoint is the one configuration fault the pipeline rejects at startup.

use vstd::prelude::*;
use vstd::string::StrSliceExecFns;

verus! {

/// Why a configured endpoint was rejected.
#[derive(Clone, Copy, PartialEq, Eq, Structural, Debug)]
pub enum ConfigError {
    MissingScheme,
    InvalidHost,
    InvalidPort,
}

/// A parsed collector endpoint: scheme (plain or TLS), host, optional port.
#[derive(Clone, PartialEq, Eq, Debug)]
pub struct Endpoint {
    pub secure: bool,
    pub host: String,
    pub port: Option<u16>,
}

/// The text begins with `http://`.
pub open spec fn http_prefix(s: Seq<char>) -> bool {
    s.len() >= 7 && s[0] == 'h' && s[1] == 't' && s[2] == 't' && s[3] == 'p' && s[4] == ':' && s[5]
        == '/' && s[6] == '/'
}

/// The text begins with `https://`.
pub open spec fn https_prefix(s: Seq<char>) -> bool {
    s.len() >= 8 && s[0] == 'h' && s[1] == 't' && s[2] == 't' && s[3] == 'p' && s[4] == 's' && s[5]
        == ':' && s[6] == '/' && s[7] == '/'
}

/// Length of the scheme prefix, where one is present.
pub open spec fn scheme_len(s: Seq<char>) -> int {
    if https_prefix(s) {
        8
    } else {
        7
    }
}

/// What follows the scheme prefix: host, and possibly a port.
pub open spec fn authority_of(s: Seq<char>) -> Seq<char> {
    s.skip(scheme_len(s))
}

pub open spec fn is_digit(c: char) -> bool {
    '0' <= c && c <= '9'
}

pub open spec fn digit_val(c: char) -> int {
    c as int - '0' as int
}

/// The number that a run of decimal digits denotes.
pub open spec fn digits_val(s: Seq<char>) -> int
    decreases s.len(),
{
    if s.len() == 0 {
        0
    } else {
        digits_val(s.drop_last()) * 10 + digit_val(s.last())
    }
}

pub open spec fn all_digits(s: Seq<char>) -> bool {
    forall|i: int| 0 <= i < s.len() ==> is_digit(s[i])
}

/// A host may hold any character except the two delimiters of the grammar.
pub open spec fn valid_host_char(c: char) -> bool {
    c != ':' && c != '/'
}

pub open spec fn valid_host(s: Seq<char>) -> bool {
    s.len() > 0 && forall|i: int| 0 <= i < s.len() ==> valid_host_char(s[i])
}

/// A port is one to five digits denoting a value that fits in sixteen bits.
pub open spec fn valid_port(s: Seq<char>) -> bool {
    1 <= s.len() <= 5 && all_digits(s) && digits_val(s) <= 65535
}

/// `i` is the first colon of `a`, splitting it into host and port.
pub open spec fn colon_split_at(a: Seq<char>, i: int) -> bool {
    0 <= i < a.len() && a[i] == ':' && (forall|j: int| 0 <= j < i ==> a[j] != ':')
}

pub open spec fn has_colon(a: Seq<char>) -> bool {
    exists|i: int| colon_split_at(a, i)
}

/// The host region of the authority (everything before the first colon, or
/// all of it) is a valid host.
pub open spec fn host_region_ok(a: Seq<char>) -> bool {
    &&& has_colon(a) ==> exists|i: int| colon_split_at(a, i) && valid_host(a.take(i))
    &&& !has_colon(a) ==> valid_host(a)
}

/// The port region of the authority (everything after the first colon), where
/// there is one, is a valid port.
pub open spec fn port_region_ok(a: Seq<char>) -> bool {
    has_colon(a) ==> exists|i: int| colon_split_at(a, i) && valid_port(a.skip(i + 1))
}

/// A well-formed endpoint: a scheme prefix, a valid host, and a valid port
/// where one is given.
pub open spec fn valid_endpoint(s: Seq<char>) -> bool {
    &&& http_prefix(s) || https_prefix(s)
    &&& host_region_ok(authority_of(s))
    &&& port_region_ok(authority_of(s))
}

/// `ep` is the decomposition of the well-formed endpoint text `s`.
pub open spec fn endpoint_matches(ep: Endpoint, s: Seq<char>) -> bool {
    &&& ep.secure == https_prefix(s)
    &&& ({
        let a = authority_of(s);
        if has_colon(a) {
            exists|i: int|
                colon_split_at(a, i) && ep.host@ == a.take(i) && ep.port is Some
                    && ep.port->0 as int == digits_val(a.skip(i + 1))
        } else {
            ep.host@ == a && ep.port is None
        }
    })
}

/// The first colon of `s` at or after `start`, if any.
fn find_colon(s: &str, start: usize) -> (r: Option<usize>)
    requires
        start <= s@.len(),
    ensures
        match r {
            Some(i) => start <= i < s@.len() && s@[i as int] == ':' && (forall|j: int|
                start <= j < i ==> s@[j] != ':'),
            None => forall|j: int| start <= j < s@.len() ==> s@[j] != ':',
        },
{
    let n = s.unicode_len();
    let mut i = start;
    while i < n
        invariant
            start <= i <= n,
            n == s@.len(),
            forall|j: int| start <= j < i ==> s@[j] != ':',
        decreases n - i,
    {
        if s.get_char(i) == ':' {
            return Some(i);
        }
        i += 1;
    }
    None
}

/// Whether `s[start..end]` is a valid host.
fn check_host(s: &str, start: usize, end: usize) -> (r: bool)
    requires
        start <= end <= s@.len(),
    ensures
        r <==> valid_host(s@.subrange(start as int, end as int)),
{
    let ghost h = s@.subrange(start as int, end as int);
    if start == end {
        return false;
    }
    let mut i = start;
    while i < end
        invariant
            start <= i <= end <= s@.len(),
            h == s@.subrange(start as int, end as int),
            forall|j: int| start <= j < i ==> valid_host_char(s@[j]),
        decreases end - i,
    {
        let c = s.get_char(i);
        if c == ':' || c == '/' {
            proof {
                assert(h[i - start] == s@[i as int]);
            }
            return false;
        }
        i += 1;
    }
    proof {
        assert(forall|k: int| 0 <= k < h.len() ==> h[k] == s@[start + k]);
    }
    true
}

/// Parse `s[start..end]` as a port, if it is a valid one.
fn parse_port(s: &str, start: usize, end: usize) -> (r: Option<u16>)
    requires
        start <= end <= s@.len(),
    ensures
        match r {
            Some(p) => valid_port(s@.subrange(start as int, end as int)) && p as int == digits_val(
                s@.subrange(start as int, end as int),
            ),
            None => !valid_port(s@.subrange(start as int, end as int)),
        },
{
    let ghost t = s@.subrange(start as int, end as int);
    let len = end - start;
    if len < 1 || len > 5 {
        return None;
    }
    let mut val: u32 = 0;
    let mut i = start;
    while i < end
        invariant
            start <= i <= end <= s@.len(),
            end - start <= 5,
            t == s@.subrange(start as int, end as int),
            all_digits(s@.subrange(start as int, i as int)),
            val as int == digits_val(s@.subrange(start as int, i as int)),
            val < 100000,
            i - start <= 4 ==> val < 10000,
            i - start <= 3 ==> val < 1000,
            i - start <= 2 ==> val < 100,
            i - start <= 1 ==> val < 10,
            i - start == 0 ==> val == 0,
        decreases end - i,
    {
        let c = s.get_char(i);
        if !('0' <= c && c <= '9') {
            proof {
                assert(t[i - start] == s@[i as int]);
                assert(!all_digits(t));
            }
            return None;
        }
        let d: u32 = (c as u32) - ('0' as u32);
        proof {
            let pre = s@.subrange(start as int, i as int);
            let cur = s@.subrange(start as int, i + 1);
            assert(cur.drop_last() =~= pre);
            assert(cur.last() == s@[i as int]);
        }
        val = val * 10 + d;
        i += 1;
    }
    proof {
        assert(t =~= s@.subrange(start as int, end as int));
    }
    if val <= 65535 {
        Some(val as u16)
    } else {
        None
    }
}

/// Parse an endpoint text against the grammar `scheme "://" host [":" port]`,
/// saying which region is at fault when it is rejected.
pub fn parse_endpoint(s: &str) -> (r: Result<Endpoint, ConfigError>)
    ensures
        r is Ok <==> valid_endpoint(s@),
        r is Ok ==> endpoint_matches(r->Ok_0, s@),
        r is Err ==> (r->Err_0 == ConfigError::MissingScheme <==> !(http_prefix(s@)
            || https_prefix(s@))),
        r is Err ==> (r->Err_0 == ConfigError::InvalidHost <==> (http_prefix(s@) || https_prefix(
            s@,
        )) && !host_region_ok(authority_of(s@))),
        r is Err ==> (r->Err_0 == ConfigError::InvalidPort <==> (http_prefix(s@) || https_prefix(
            s@,
        )) && host_region_ok(authority_of(s@)) && !port_region_ok(authority_of(s@))),
{
    let n = s.unicode_len();
    let secure: bool;
    let start: usize;
    if n >= 8 && s.get_char(0) == 'h' && s.get_char(1) == 't' && s.get_char(2) == 't' && s.get_char(
        3,
    ) == 'p' && s.get_char(4) == 's' && s.get_char(5) == ':' && s.get_char(6) == '/' && s.get_char(
        7,
    ) == '/' {
        secure = true;
        start = 8;
    } else if n >= 7 && s.get_char(0) == 'h' && s.get_char(1) == 't' && s.get_char(2) == 't'
        && s.get_char(3) == 'p' && s.get_char(4) == ':' && s.get_char(5) == '/' && s.get_char(6)
        == '/' {
        secure = false;
        start = 7;
    } else {
        return Err(ConfigError::MissingScheme);
    }
    let ghost a = authority_of(s@);
    proof {
        assert(start == scheme_len(s@));
        assert(forall|k: int| 0 <= k < a.len() ==> a[k] == s@[start + k]);
    }
    match find_colon(s, start) {
        Some(ci) => {
            let ghost ai = ci - start;
            proof {
                assert(a[ai] == s@[ci as int]);
                assert(forall|j: int| 0 <= j < ai ==> a[j] == s@[start + j]);
                assert(colon_split_at(a, ai));
            }
            if !check_host(s, start, ci) {
                proof {
                    assert(a.take(ai) =~= s@.subrange(start as int, ci as int));
                    assert forall|i2: int| colon_split_at(a, i2) implies i2 == ai by {
                        if i2 < ai {
                            assert(a[i2] == ':');
                        } else if i2 > ai {
                            assert(a[ai] == ':');
                        }
                    }
                }
                return Err(ConfigError::InvalidHost);
            }
            proof {
                assert(a.take(ai) =~= s@.subrange(start as int, ci as int));
            }
            match parse_port(s, ci + 1, n) {
                None => {
                    proof {
                        assert(a.skip(ai + 1) =~= s@.subrange(ci + 1, n as int));
                        assert forall|i2: int| colon_split_at(a, i2) implies i2 == ai by {
                            if i2 < ai {
                                assert(a[i2] == ':');
                            } else if i2 > ai {
                                assert(a[ai] == ':');
                            }
                        }
                    }
                    Err(ConfigError::InvalidPort)
                },
                Some(p) => {
                    let host = s.substring_char(start, ci).to_owned();
                    proof {
                        assert(a.skip(ai + 1) =~= s@.subrange(ci + 1, n as int));
                        assert(host@ == a.take(ai));
                    }
                    Ok(Endpoint { secure, host, port: Some(p) })
                },
            }
        },
        None => {
            proof {
                assert(forall|j: int| 0 <= j < a.len() ==> a[j] != ':');
                assert(!has_colon(a));
            }
            if !check_host(s, start, n) {
                proof {
                    assert(a =~= s@.subrange(start as int, n as int));
                }
                return Err(ConfigError::InvalidHost);
            }
            let host = s.substring_char(start, n).to_owned();
            proof {
                assert(a =~= s@.subrange(start as int, n as int));
                assert(host@ == a);
            }
            Ok(Endpoint { secure, host, port: None })
        },
    }
}

} // verus!

//! The Wi-Fi capability and its configuration.
//!
//! A configuration can be parsed from a `"<ap>:<ssid>:<password>"` triple,
//! as carried by the `RACEGATE_WIFI_CONFIG` environment variable. The split
//! follows terminator rules: pieces after the third are ignored, and a
//! trailing empty piece does not count, so `"true:net:"` has no password
//! piece and is rejected while `"true:net::"` carries an empty one.
use vstd::prelude::*;

verus! {

pub trait Wifi {
    fn setup(&self, config: &WifiConfig) -> Result<(), WifiError>;

    fn is_up(&self) -> bool;
}

/// A driver-side failure to bring the network up.
#[derive(Debug, Copy, Clone, PartialEq, Eq, Structural)]
pub struct WifiError;

/// Access-point or client configuration of the network.
#[derive(Debug, Copy, Clone)]
pub struct WifiConfig<'a> {
    pub ap: bool,
    pub ssid: &'a str,
    pub password: &'a str,
}

#[derive(Debug, Copy, Clone, PartialEq, Eq, Structural)]
pub enum WifiConfigError {
    EnvVarNotAvailable,
    ParseError,
}

/// The position of the first `:` at or after `from`, or the string's length
/// when there is none.
pub open spec fn spec_sep_or_end(s: Seq<char>, from: int) -> int
    recommends
        0 <= from,
    decreases s.len() - from,
        when from <= s.len()
{
    if from >= s.len() {
        s.len() as int
    } else if s[from] == ':' {
        from
    } else {
        spec_sep_or_end(s, from + 1)
    }
}

/// What parsing a configuration triple yields: the access-point flag and
/// the ssid and password pieces, or a parse failure. `p0`, `p1` and `p2`
/// are the separator positions that delimit the three pieces; the third
/// piece must begin before the end of the string.
pub open spec fn spec_parse_wifi(s: Seq<char>) -> Result<
    (bool, Seq<char>, Seq<char>),
    WifiConfigError,
> {
    let n = s.len() as int;
    let p0 = spec_sep_or_end(s, 0);
    let p1 = spec_sep_or_end(s, p0 + 1);
    let p2 = spec_sep_or_end(s, p1 + 1);
    if p0 + 1 < n && p1 + 1 < n {
        if s.subrange(0, p0) =~= seq!['t', 'r', 'u', 'e'] {
            Ok((true, s.subrange(p0 + 1, p1), s.subrange(p1 + 1, p2)))
        } else if s.subrange(0, p0) =~= seq!['f', 'a', 'l', 's', 'e'] {
            Ok((false, s.subrange(p0 + 1, p1), s.subrange(p1 + 1, p2)))
        } else {
            Err(WifiConfigError::ParseError)
        }
    } else {
        Err(WifiConfigError::ParseError)
    }
}

proof fn lemma_sep_or_end_at(s: Seq<char>, from: int, i: int)
    requires
        0 <= from <= i <= s.len(),
        forall|j: int| from <= j < i ==> s[j] != ':',
        i == s.len() || s[i] == ':',
    ensures
        spec_sep_or_end(s, from) == i,
    decreases i - from,
{
    if from < i {
        lemma_sep_or_end_at(s, from + 1, i);
    }
}

/// The position of the first `:` at or after `from`, or the length.
fn find_sep(s: &str, from: usize) -> (r: usize)
    requires
        from <= s@.len(),
    ensures
        r == spec_sep_or_end(s@, from as int),
        from <= r <= s@.len(),
        r < s@.len() ==> s@[r as int] == ':',
        forall|j: int| from <= j < r ==> s@[j] != ':',
{
    let n = s.unicode_len();
    let mut i = from;
    while i < n
        invariant
            from <= i <= n,
            n == s@.len(),
            forall|j: int| from <= j < i ==> s@[j] != ':',
        decreases n - i,
    {
        if s.get_char(i) == ':' {
            proof {
                lemma_sep_or_end_at(s@, from as int, i as int);
            }
            return i;
        }
        i += 1;
    }
    proof {
        lemma_sep_or_end_at(s@, from as int, n as int);
    }
    n
}

impl<'a> WifiConfig<'a> {
    /// Parse a `"<ap>:<ssid>:<password>"` triple. The flag must read `true`
    /// or `false`; the password runs to the next `:` or the end.
    pub fn try_from_str(s: &'a str) -> (r: Result<WifiConfig<'a>, WifiConfigError>)
        ensures
            r matches Ok(cfg) ==> spec_parse_wifi(s@) == Ok::<
                (bool, Seq<char>, Seq<char>),
                WifiConfigError,
            >((cfg.ap, cfg.ssid@, cfg.password@)),
            r is Ok <==> spec_parse_wifi(s@) is Ok,
            r is Err ==> r == Err::<WifiConfig<'a>, WifiConfigError>(WifiConfigError::ParseError),
    {
        let n = s.unicode_len();
        let p0 = find_sep(s, 0);
        if p0 >= n || p0 + 1 >= n {
            return Err(WifiConfigError::ParseError);
        }
        let p1 = find_sep(s, p0 + 1);
        if p1 >= n || p1 + 1 >= n {
            return Err(WifiConfigError::ParseError);
        }
        let p2 = find_sep(s, p1 + 1);
        let ap: bool;
        if p0 == 4 && s.get_char(0) == 't' && s.get_char(1) == 'r' && s.get_char(2) == 'u'
            && s.get_char(3) == 'e' {
            proof {
                assert(s@.subrange(0, 4) =~= seq!['t', 'r', 'u', 'e']);
            }
            ap = true;
        } else if p0 == 5 && s.get_char(0) == 'f' && s.get_char(1) == 'a' && s.get_char(2) == 'l'
            && s.get_char(3) == 's' && s.get_char(4) == 'e' {
            proof {
                assert(s@.subrange(0, 5) =~= seq!['f', 'a', 'l', 's', 'e']);
                assert(!(s@.subrange(0, 5) =~= seq!['t', 'r', 'u', 'e']));
            }
            ap = false;
        } else {
            proof {
                let piece = s@.subrange(0, p0 as int);
                assert(!(piece =~= seq!['t', 'r', 'u', 'e'])) by {
                    if piece =~= seq!['t', 'r', 'u', 'e'] {
                        assert(piece.len() == 4);
                        assert(s@[0] == 't' && s@[1] == 'r' && s@[2] == 'u' && s@[3] == 'e');
                    }
                }
                assert(!(piece =~= seq!['f', 'a', 'l', 's', 'e'])) by {
                    if piece =~= seq!['f', 'a', 'l', 's', 'e'] {
                        assert(piece.len() == 5);
                        assert(s@[0] == 'f' && s@[1] == 'a' && s@[2] == 'l' && s@[3] == 's'
                            && s@[4] == 'e');
                    }
                }
            }
            return Err(WifiConfigError::ParseError);
        }
        let ssid = s.substring_char(p0 + 1, p1);
        let password = s.substring_char(p1 + 1, p2);
        Ok(WifiConfig { ap, ssid, password })
    }

    /// Parse the value of the `RACEGATE_WIFI_CONFIG` environment variable,
    /// as read by the runner; None means the variable is not set.
    pub fn from_env_var(value: Option<&'a str>) -> (r: Result<WifiConfig<'a>, WifiConfigError>)
        ensures
            value is None ==> r == Err::<WifiConfig<'a>, WifiConfigError>(
                WifiConfigError::EnvVarNotAvailable,
            ),
            value matches Some(s) ==> {
                &&& (r matches Ok(cfg) ==> spec_parse_wifi(s@) == Ok::<
                    (bool, Seq<char>, Seq<char>),
                    WifiConfigError,
                >((cfg.ap, cfg.ssid@, cfg.password@)))
                &&& (r is Ok <==> spec_parse_wifi(s@) is Ok)
                &&& (r is Err ==> r == Err::<WifiConfig<'a>, WifiConfigError>(
                    WifiConfigError::ParseError,
                ))
            },
    {
        match value {
            Some(s) => WifiConfig::try_from_str(s),
            None => Err(WifiConfigError::EnvVarNotAvailable),
        }
    }
}

impl Default for WifiConfig<'_> {
    /// The stock appliance network: an access point named after the system.
    fn default() -> (r: Self)
        ensures
            r.ap == true,
            r.ssid@ == "racegate"@,
            r.password@ == "racegate"@,
    {
        WifiConfig { ap: true, ssid: "racegate", password: "racegate" }
    }
}

} // verus!

//! Process configuration and the map-list document's in-memory shape.
//!
//! The surrounding program reads the raw environment values and the map-list
//! file; the library owns what is computed from them: defaults, and the
//! decimal parsing of the two durations.

use vstd::prelude::*;
use vstd::string::*;

verus! {

/// A decimal digit.
pub open spec fn is_dec_digit(c: char) -> bool {
    '0' <= c <= '9'
}

/// Every character of the sequence is a decimal digit.
pub open spec fn all_dec_digits(s: Seq<char>) -> bool {
    forall|i: int| 0 <= i < s.len() ==> is_dec_digit(#[trigger] s[i])
}

/// The number the sequence denotes in decimal, read most significant digit
/// first.  Meaningful under `all_dec_digits`.
pub open spec fn dec_value(s: Seq<char>) -> int
    decreases s.len(),
{
    if s.len() == 0 {
        0
    } else {
        dec_value(s.drop_last()) * 10 + (s.last() as int - '0' as int)
    }
}

/// A sequence that parses as a `u64`: nonempty, all digits, and its value
/// fits.
pub open spec fn parses_u64(s: Seq<char>) -> bool {
    &&& s.len() > 0
    &&& all_dec_digits(s)
    &&& dec_value(s) <= u64::MAX
}

proof fn lemma_dec_value_nonneg(s: Seq<char>)
    requires
        all_dec_digits(s),
    ensures
        dec_value(s) >= 0,
    decreases s.len(),
{
    if s.len() > 0 {
        assert(all_dec_digits(s.drop_last())) by {
            assert(forall|i: int|
                0 <= i < s.len() - 1 ==> s.drop_last()[i] == #[trigger] s[i]);
        }
        lemma_dec_value_nonneg(s.drop_last());
    }
}

/// A prefix of a digit sequence denotes at most what the whole denotes.
proof fn lemma_dec_value_prefix_le(s: Seq<char>, i: int)
    requires
        all_dec_digits(s),
        0 <= i <= s.len(),
    ensures
        dec_value(s.subrange(0, i)) <= dec_value(s),
    decreases s.len() - i,
{
    if i == s.len() {
        assert(s.subrange(0, i) =~= s);
    } else {
        lemma_dec_value_prefix_le(s, i + 1);
        let t = s.subrange(0, i + 1);
        assert(t.drop_last() =~= s.subrange(0, i));
        assert(is_dec_digit(t.last()));
        lemma_dec_value_nonneg(s.subrange(0, i));
    }
}

/// Parse a decimal `u64`: `Some` exactly when the text is one or more
/// decimal digits whose value fits in a `u64`.
pub fn parse_u64(s: &str) -> (r: Option<u64>)
    ensures
        r is Some <==> parses_u64(s@),
        r matches Some(v) ==> v == dec_value(s@),
{
    let n: usize = s.unicode_len();
    if n == 0 {
        return None;
    }
    let mut acc: u64 = 0;
    let mut i: usize = 0;
    while i < n
        invariant
            0 < n == s@.len(),
            i <= n,
            all_dec_digits(s@.subrange(0, i as int)),
            acc == dec_value(s@.subrange(0, i as int)),
        decreases n - i,
    {
        let ghost prefix = s@.subrange(0, i as int);
        let ghost extended = s@.subrange(0, i as int + 1);
        proof {
            assert(extended.drop_last() =~= prefix);
            assert(extended.last() == s@[i as int]);
        }
        let c = s.get_char(i);
        let cv: u32 = c as u32;
        if cv < 48 || cv > 57 {
            proof {
                assert(!is_dec_digit(s@[i as int]));
            }
            return None;
        }
        let d: u64 = (cv - 48) as u64;
        let next: Option<u64> = match acc.checked_mul(10) {
            Some(m) => m.checked_add(d),
            None => None,
        };
        match next {
            Some(v) => {
                acc = v;
            },
            None => {
                proof {
                    lemma_dec_value_nonneg(prefix);
                    if all_dec_digits(s@) {
                        lemma_dec_value_prefix_le(s@, i as int + 1);
                    }
                }
                return None;
            },
        }
        i = i + 1;
    }
    proof {
        assert(s@.subrange(0, n as int) =~= s@);
    }
    Some(acc)
}

/// The given text, or the default where none was given.
pub open spec fn spec_or_default(v: Option<String>, d: Seq<char>) -> Seq<char> {
    match v {
        Some(s) => s@,
        None => d,
    }
}

/// The number the given text denotes, or the default where none was given or
/// the text does not parse.
pub open spec fn spec_secs_or_default(v: Option<String>, d: u64) -> u64 {
    match v {
        Some(s) => if parses_u64(s@) {
            dec_value(s@) as u64
        } else {
            d
        },
        None => d,
    }
}

fn secs_or_default(v: Option<String>, d: u64) -> (r: u64)
    ensures
        r == spec_secs_or_default(v, d),
{
    match v {
        Some(s) => match parse_u64(s.as_str()) {
            Some(n) => n,
            None => d,
        },
        None => d,
    }
}

/// The process configuration: where to listen, the two durations of the
/// protective layer, the map-list file, and the optional repository URLs of
/// the version report.
pub struct Config {
    pub port: String,
    pub host: String,
    pub cache_duration_secs: u64,
    pub rate_limit_duration_secs: u64,
    pub maps_config_path: String,
    pub android_repo_url: Option<String>,
    pub web_repo_url: Option<String>,
}

impl Config {
    /// Build the configuration from the raw environment values, applying the
    /// defaults: `127.0.0.1:5800`, three seconds for both durations, and
    /// `maps.json`.  A duration that does not parse falls back to its
    /// default.
    pub fn new(
        host: Option<String>,
        port: Option<String>,
        cache_duration: Option<String>,
        rate_limit: Option<String>,
        maps_config_path: Option<String>,
        android_repo_url: Option<String>,
        web_repo_url: Option<String>,
    ) -> (r: Result<Config, &'static str>)
        ensures
            r matches Ok(c) ==> {
                &&& c.host@ == spec_or_default(host, "127.0.0.1"@)
                &&& c.port@ == spec_or_default(port, "5800"@)
                &&& c.cache_duration_secs == spec_secs_or_default(cache_duration, 3)
                &&& c.rate_limit_duration_secs == spec_secs_or_default(rate_limit, 3)
                &&& c.maps_config_path@ == spec_or_default(maps_config_path, "maps.json"@)
                &&& c.android_repo_url == android_repo_url
                &&& c.web_repo_url == web_repo_url
            },
            r is Ok,
    {
        let host_v: String = match host {
            Some(h) => h,
            None => String::from_str("127.0.0.1"),
        };
        let port_v: String = match port {
            Some(p) => p,
            None => String::from_str("5800"),
        };
        let cache_duration_secs: u64 = secs_or_default(cache_duration, 3);
        let rate_limit_duration_secs: u64 = secs_or_default(rate_limit, 3);
        let maps_path_v: String = match maps_config_path {
            Some(m) => m,
            None => String::from_str("maps.json"),
        };
        Ok(
            Config {
                port: port_v,
                host: host_v,
                cache_duration_secs,
                rate_limit_duration_secs,
                maps_config_path: maps_path_v,
                android_repo_url,
                web_repo_url,
            },
        )
    }
}

/// One entry of the map list: a display name, a content path, and an image.
pub struct MapEntry {
    pub name: String,
    pub path: String,
    pub image: String,
}

/// The map list served to clients, as loaded from the map-list file.
pub struct MapsConfig {
    pub maps: Vec<MapEntry>,
}

impl MapsConfig {
    pub fn new() -> (r: MapsConfig)
        ensures
            r.maps@ == Seq::<MapEntry>::empty(),
    {
        MapsConfig { maps: Vec::new() }
    }

    /// A copy of the map list.
    pub fn get_maps(&self) -> (r: Vec<MapEntry>)
        ensures
            r@ == self.maps@,
    {
        let mut out: Vec<MapEntry> = Vec::new();
        let mut i: usize = 0;
        while i < self.maps.len()
            invariant
                i <= self.maps.len(),
                out@ =~= self.maps@.subrange(0, i as int),
            decreases self.maps.len() - i,
        {
            let e = &self.maps[i];
            out.push(
                MapEntry {
                    name: e.name.clone(),
                    path: e.path.clone(),
                    image: e.image.clone(),
                },
            );
            proof {
                assert(out@ =~= self.maps@.subrange(0, i as int + 1));
            }
            i = i + 1;
        }
        proof {
            assert(self.maps@.subrange(0, self.maps@.len() as int) =~= self.maps@);
        }
        out
    }
}

} // verus!

//! The logging configuration model: log levels parsed from text, target
//! matching rules, and the configuration the logging backend outside the
//! library is wired from.

use vstd::prelude::*;
use vstd::string::*;

verus! {

/// A log level threshold, from everything off to everything on.
#[derive(Debug, Eq, PartialEq, Clone, Copy, Structural)]
pub enum LevelFilter {
    Off,
    Error,
    Warn,
    Info,
    Debug,
    Trace,
}

/// Whether the byte is ASCII whitespace.
pub open spec fn spec_is_ws(b: u8) -> bool {
    b == 32 || b == 9 || b == 10 || b == 11 || b == 12 || b == 13
}

/// The bytes with surrounding ASCII whitespace removed.
pub open spec fn spec_trim(s: Seq<u8>) -> Seq<u8>
    decreases s.len(),
{
    if s.len() == 0 {
        s
    } else if spec_is_ws(s[0]) {
        spec_trim(s.skip(1))
    } else if spec_is_ws(s[s.len() - 1]) {
        spec_trim(s.take(s.len() - 1))
    } else {
        s
    }
}

/// The byte with an ASCII lowercase letter turned uppercase.
pub open spec fn spec_upper_byte(b: u8) -> u8 {
    if 97 <= b <= 122 {
        (b - 32) as u8
    } else {
        b
    }
}

/// The bytes with every ASCII lowercase letter turned uppercase.
pub open spec fn spec_to_upper(s: Seq<u8>) -> Seq<u8> {
    Seq::new(s.len(), |i: int| spec_upper_byte(s[i]))
}

/// The level named by the bytes: surrounding ASCII whitespace is ignored
/// and ASCII case does not matter; anything else names no level.
pub open spec fn spec_level_of(s: Seq<u8>) -> Option<LevelFilter> {
    let t = spec_to_upper(spec_trim(s));
    if t == seq![79u8, 70u8, 70u8] {
        Some(LevelFilter::Off)
    } else if t == seq![69u8, 82u8, 82u8, 79u8, 82u8] {
        Some(LevelFilter::Error)
    } else if t == seq![87u8, 65u8, 82u8, 78u8] {
        Some(LevelFilter::Warn)
    } else if t == seq![73u8, 78u8, 70u8, 79u8] {
        Some(LevelFilter::Info)
    } else if t == seq![68u8, 69u8, 66u8, 85u8, 71u8] {
        Some(LevelFilter::Debug)
    } else if t == seq![84u8, 82u8, 65u8, 67u8, 69u8] {
        Some(LevelFilter::Trace)
    } else {
        None
    }
}

/// Removes surrounding ASCII whitespace.
pub fn trim_bytes(s: &[u8]) -> (r: &[u8])
    ensures
        r@ == spec_trim(s@),
    decreases s@.len(),
{
    if s.len() == 0 {
        s
    } else if is_ws(s[0]) {
        let t = &s[1..s.len()];
        proof {
            assert(t@ =~= s@.skip(1));
        }
        trim_bytes(t)
    } else if is_ws(s[s.len() - 1]) {
        let t = &s[0..s.len() - 1];
        proof {
            assert(t@ =~= s@.take(s@.len() - 1));
        }
        trim_bytes(t)
    } else {
        s
    }
}

fn is_ws(b: u8) -> (r: bool)
    ensures
        r == spec_is_ws(b),
{
    b == 32 || b == 9 || b == 10 || b == 11 || b == 12 || b == 13
}

/// Whether `s`, uppercased ASCII-wise, is exactly `kw`.
fn upper_eq(s: &[u8], kw: &[u8]) -> (r: bool)
    ensures
        r == (spec_to_upper(s@) == kw@),
{
    if s.len() != kw.len() {
        proof {
            assert(spec_to_upper(s@).len() != kw@.len());
        }
        return false;
    }
    let mut i: usize = 0;
    while i < s.len()
        invariant
            s@.len() == kw@.len(),
            i <= s@.len(),
            forall|j: int| 0 <= j < i ==> spec_upper_byte(s@[j]) == kw@[j],
        decreases s@.len() - i,
    {
        let b = s[i];
        let u = if 97 <= b && b <= 122 {
            b - 32
        } else {
            b
        };
        if u != kw[i] {
            proof {
                assert(spec_to_upper(s@)[i as int] != kw@[i as int]);
            }
            return false;
        }
        i = i + 1;
    }
    proof {
        assert(spec_to_upper(s@) =~= kw@);
    }
    true
}

/// The level named by the text, if any: surrounding ASCII whitespace is
/// ignored and ASCII case does not matter.
pub fn try_level_filter(level: &str) -> (r: Option<LevelFilter>)
    ensures
        r == spec_level_of(vstd::utf8::encode_utf8(level@)),
{
    let t = trim_bytes(level.as_bytes());
    let kw_off: [u8; 3] = [79, 70, 70];
    let kw_error: [u8; 5] = [69, 82, 82, 79, 82];
    let kw_warn: [u8; 4] = [87, 65, 82, 78];
    let kw_info: [u8; 4] = [73, 78, 70, 79];
    let kw_debug: [u8; 5] = [68, 69, 66, 85, 71];
    let kw_trace: [u8; 5] = [84, 82, 65, 67, 69];
    proof {
        assert(kw_off@ =~= seq![79u8, 70u8, 70u8]);
        assert(kw_error@ =~= seq![69u8, 82u8, 82u8, 79u8, 82u8]);
        assert(kw_warn@ =~= seq![87u8, 65u8, 82u8, 78u8]);
        assert(kw_info@ =~= seq![73u8, 78u8, 70u8, 79u8]);
        assert(kw_debug@ =~= seq![68u8, 69u8, 66u8, 85u8, 71u8]);
        assert(kw_trace@ =~= seq![84u8, 82u8, 65u8, 67u8, 69u8]);
    }
    if upper_eq(t, kw_off.as_slice()) {
        Some(LevelFilter::Off)
    } else if upper_eq(t, kw_error.as_slice()) {
        Some(LevelFilter::Error)
    } else if upper_eq(t, kw_warn.as_slice()) {
        Some(LevelFilter::Warn)
    } else if upper_eq(t, kw_info.as_slice()) {
        Some(LevelFilter::Info)
    } else if upper_eq(t, kw_debug.as_slice()) {
        Some(LevelFilter::Debug)
    } else if upper_eq(t, kw_trace.as_slice()) {
        Some(LevelFilter::Trace)
    } else {
        None
    }
}

/// The level named by the text. The caller must hand over a valid level
/// name; `try_level_filter` is the checked form.
pub fn level_filter(level: &str) -> (r: LevelFilter)
    requires
        spec_level_of(vstd::utf8::encode_utf8(level@)) is Some,
    ensures
        Some(r) == spec_level_of(vstd::utf8::encode_utf8(level@)),
{
    try_level_filter(level).unwrap()
}

/// Whether one rule matches the target: a rule ending in `$` names the
/// whole target exactly (without the `$`); any other rule is a prefix.
pub open spec fn spec_rule_matches(rule: Seq<u8>, target: Seq<u8>) -> bool {
    if rule.len() > 0 && rule[rule.len() - 1] == 36u8 {
        target == rule.take(rule.len() - 1)
    } else {
        rule.len() <= target.len() && target.take(rule.len() as int) == rule
    }
}

/// Whether any of the rules matches the target.
pub open spec fn spec_match_target(target: Seq<u8>, rules: Seq<Seq<u8>>) -> bool {
    exists|i: int| 0 <= i < rules.len() && spec_rule_matches(rules[i], target)
}

/// Whether any rule matches the target: a rule ending in `$` must equal the
/// whole target, any other rule must be a prefix of it.
pub fn match_target(target: &str, rules: &Vec<String>) -> (r: bool)
    ensures
        r == spec_match_target(
            vstd::utf8::encode_utf8(target@),
            rules@.map_values(|s: String| vstd::utf8::encode_utf8(s@)),
        ),
{
    let ghost rules_bytes = rules@.map_values(|s: String| vstd::utf8::encode_utf8(s@));
    let tb = target.as_bytes();
    let mut i: usize = 0;
    while i < rules.len()
        invariant
            i <= rules@.len(),
            tb@ == vstd::utf8::encode_utf8(target@),
            rules_bytes == rules@.map_values(|s: String| vstd::utf8::encode_utf8(s@)),
            forall|j: int| 0 <= j < i ==> !spec_rule_matches(rules_bytes[j], tb@),
        decreases rules@.len() - i,
    {
        let rb = rules[i].as_str().as_bytes();
        proof {
            assert(rules_bytes[i as int] == rb@);
        }
        let matched = if rb.len() > 0 && rb[rb.len() - 1] == 36 {
            let prefix = &rb[0..rb.len() - 1];
            proof {
                assert(prefix@ =~= rb@.take(rb@.len() - 1));
            }
            super::utils::textual::bytes_eq(tb, prefix)
        } else {
            super::utils::textual::bytes_starts_with(tb, rb)
        };
        if matched {
            proof {
                assert(spec_rule_matches(rules_bytes[i as int], tb@));
            }
            return true;
        }
        i = i + 1;
    }
    false
}

/// One entry of the logging configuration that singles targets out: which
/// module paths it names, at which level, into which file, and whether the
/// global log also records them.
#[derive(Debug, Clone, PartialEq)]
pub struct Specify {
    pub crate_name: String,
    pub level: String,
    pub file_name_prefix: Option<String>,
    pub additivity: Option<bool>,
}

impl Specify {
    pub fn new(
        crate_name: String,
        level: String,
        file_name_prefix: Option<String>,
        additivity: Option<bool>,
    ) -> (r: Self)
        ensures
            r == (Specify { crate_name, level, file_name_prefix, additivity }),
    {
        Specify { crate_name, level, file_name_prefix, additivity }
    }
}

/// The logging configuration: where log files go, their name prefix, the
/// global level, and the targets singled out. The backend that writes the
/// files lives outside the library and is wired from this value.
#[derive(Debug, Clone, PartialEq)]
pub struct Logger {
    pub store_path: String,
    pub prefix: String,
    pub level: String,
    pub specify: Option<Vec<Specify>>,
}

impl Logger {
    pub fn new(store_path: String, prefix: String, level: String, specify: Option<Vec<Specify>>) -> (r:
        Self)
        ensures
            r == (Logger { store_path, prefix, level, specify }),
    {
        Logger { store_path, prefix, level, specify }
    }
}

} // verus!

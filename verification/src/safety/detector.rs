//! The danger detector: an any-of scan of a command against the compiled
//! dangerous patterns, failing safe when a pattern cannot be compiled.

use vstd::prelude::*;
use crate::config_file::FileConfig;
use crate::safety::patterns::{
    all_patterns_ok, dangerous_spec, effective_patterns, first_bad_pattern, regex_match, regex_ok,
    try_match, PatternSet,
};
use crate::strutil::dec_digits;

verus! {

/// The position of the first pattern of `ps` matching `cmd`, at or after
/// `i`, when all patterns are valid.
pub open spec fn first_match_from(ps: Seq<Seq<char>>, cmd: Seq<char>, i: int) -> Option<int>
    decreases ps.len() - i,
{
    if i < 0 || i >= ps.len() {
        None
    } else if regex_match(ps[i], cmd) {
        Some(i)
    } else {
        first_match_from(ps, cmd, i + 1)
    }
}

/// Whether `command` matches any pattern of the compiled set; an invalid
/// pattern counts as a match of everything (fail safe).
pub fn is_dangerous_command_with_regexes(command: &str, set: &PatternSet) -> (r: bool)
    ensures
        r == dangerous_spec(set.patterns.deep_view(), command@),
{
    let ghost ps = set.patterns.deep_view();
    let mut i: usize = 0;
    while i < set.patterns.len()
        invariant
            0 <= i <= set.patterns@.len(),
            ps == set.patterns.deep_view(),
            forall|j: int| 0 <= j < i ==> regex_ok(ps[j]) && !regex_match(ps[j], command@),
        decreases set.patterns@.len() - i,
    {
        proof {
            assert(set.patterns[i as int]@ == ps[i as int]);
        }
        match try_match(set.patterns[i].as_str(), command) {
            Some(true) => {
                proof {
                    assert(0 <= i < ps.len() && regex_match(ps[i as int], command@));
                }
                return true;
            },
            Some(false) => {},
            None => {
                proof {
                    assert(!regex_ok(ps[i as int]));
                }
                return true;
            },
        }
        i = i + 1;
    }
    false
}

/// Whether `command` is dangerous under `config`: it matches one of the
/// effective patterns, or one of them is not a valid regular expression —
/// a command that cannot be checked is reported dangerous rather than
/// passed through.
pub fn is_dangerous_command(command: &str, config: &FileConfig) -> (r: bool)
    ensures
        r == dangerous_spec(effective_patterns(*config), command@),
{
    match crate::safety::patterns::compile_dangerous_regexes(config) {
        Ok(set) => is_dangerous_command_with_regexes(command, &set),
        Err(_) => {
            proof {
                let ps = effective_patterns(*config);
                let bad = first_bad_pattern(ps, 0);
                lemma_first_bad_in_range(ps, 0);
            }
            true
        },
    }
}

proof fn lemma_first_bad_in_range(ps: Seq<Seq<char>>, i: int)
    requires
        first_bad_pattern(ps, i) is Some,
    ensures
        !regex_ok(ps[first_bad_pattern(ps, i)->0]),
        i <= first_bad_pattern(ps, i)->0 < ps.len(),
    decreases ps.len() - i,
{
    if !(i < 0 || i >= ps.len()) && regex_ok(ps[i]) {
        lemma_first_bad_in_range(ps, i + 1);
    }
}

/// The name under which a matching pattern is reported: the configured
/// pattern text when the index falls inside the configured list, else a
/// placeholder naming the index.
pub open spec fn matched_pattern_name(config: FileConfig, i: int) -> Seq<char> {
    if i < config.safety.dangerous_patterns@.len() {
        config.safety.dangerous_patterns.deep_view()[i]
    } else {
        "pattern_"@ + dec_digits(i)
    }
}

/// The first pattern matching `command` under `config`, as index and
/// display text, for diagnostics; `None` when nothing matches or the
/// patterns cannot be compiled.
pub fn get_matching_pattern(command: &str, config: &FileConfig) -> (r: Option<(usize, String)>)
    ensures
        match r {
            Some((i, p)) => {
                &&& all_patterns_ok(effective_patterns(*config))
                &&& first_match_from(effective_patterns(*config), command@, 0) == Some(i as int)
                &&& p@ == matched_pattern_name(*config, i as int)
            },
            None => !all_patterns_ok(effective_patterns(*config)) || first_match_from(
                effective_patterns(*config),
                command@,
                0,
            ) is None,
        },
{
    let set = match crate::safety::patterns::compile_dangerous_regexes(config) {
        Ok(set) => set,
        Err(_) => {
            proof {
                let ps = effective_patterns(*config);
                lemma_first_bad_in_range(ps, 0);
            }
            return None;
        },
    };
    let ghost ps = effective_patterns(*config);
    let mut i: usize = 0;
    while i < set.patterns.len()
        invariant
            0 <= i <= set.patterns@.len(),
            ps == effective_patterns(*config),
            ps == set.patterns.deep_view(),
            set.wf(),
            forall|j: int| 0 <= j < i ==> !regex_match(ps[j], command@),
            first_match_from(ps, command@, 0) == first_match_from(ps, command@, i as int),
        decreases set.patterns@.len() - i,
    {
        proof {
            assert(set.patterns[i as int]@ == ps[i as int]);
        }
        match try_match(set.patterns[i].as_str(), command) {
            Some(true) => {
                let name: String = if i < config.safety.dangerous_patterns.len() {
                    config.safety.dangerous_patterns[i].clone()
                } else {
                    let mut s = String::new();
                    s.append("pattern_");
                    let num = crate::strutil::u64_to_string(i as u64);
                    s.append(num.as_str());
                    s
                };
                return Some((i, name));
            },
            _ => {},
        }
        i = i + 1;
    }
    None
}

} // verus!

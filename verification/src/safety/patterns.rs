//! The dangerous-command pattern set: built-in defaults, compilation of
//! configured patterns, and a process-lifetime cache modeled as explicit
//! state.

use vstd::prelude::*;
use crate::config_file::FileConfig;
use crate::strutil::dec_digits;

verus! {

/// Whether `pattern` is a valid regular expression, as regex's `Regex::new`
/// decides it. A function of `pattern` alone.
pub uninterp spec fn regex_ok(pattern: Seq<char>) -> bool;

/// Whether the regular expression `pattern` matches anywhere in `text`,
/// as regex's `Regex::is_match` decides it. A function of the two alone.
pub uninterp spec fn regex_match(pattern: Seq<char>, text: Seq<char>) -> bool;

/// Relies on regex's `Regex::new` and `Regex::is_match`: compiles
/// `pattern` and, when it is valid, matches it anywhere in `text`. Both
/// outcomes are functions of the arguments alone.
#[verifier::external_body]
pub(crate) fn try_match(pattern: &str, text: &str) -> (r: Option<bool>)
    ensures
        r is Some <==> regex_ok(pattern@),
        r is Some ==> r->0 == regex_match(pattern@, text@),
{
    regex::Regex::new(pattern).ok().map(|re| re.is_match(text))
}

/// The built-in dangerous-command patterns of the detector, used when the
/// configuration supplies none.
pub open spec fn builtin_patterns() -> Seq<Seq<char>> {
    seq![
        r"rm\s+-rf\s+/"@,
        r"rm\s+-rf\s+/\s*$"@,
        r"dd\s+if=/dev/zero"@,
        r"mkfs\.\w+\s+/dev/"@,
        r"sudo\s+rm\s+-rf\s+/"@,
        r">\s*/dev/"@,
        r"format\s+[c-z]:"@,
        r"del\s+/f\s+/s\s+[c-z]:\\"@,
    ]
}

/// The built-in dangerous-command patterns: destructive filesystem and
/// device operations.
pub fn default_dangerous_patterns() -> (r: Vec<String>)
    ensures
        r.deep_view() == builtin_patterns(),
{
    let mut v: Vec<String> = Vec::new();
    v.push(r"rm\s+-rf\s+/".to_owned());
    v.push(r"rm\s+-rf\s+/\s*$".to_owned());
    v.push(r"dd\s+if=/dev/zero".to_owned());
    v.push(r"mkfs\.\w+\s+/dev/".to_owned());
    v.push(r"sudo\s+rm\s+-rf\s+/".to_owned());
    v.push(r">\s*/dev/".to_owned());
    v.push(r"format\s+[c-z]:".to_owned());
    v.push(r"del\s+/f\s+/s\s+[c-z]:\\".to_owned());
    proof {
        assert(v.deep_view() =~= builtin_patterns());
    }
    v
}

/// The pattern sources the detector runs under `config`: the configured
/// ones, or the built-in defaults when none are configured.
pub open spec fn effective_patterns(config: FileConfig) -> Seq<Seq<char>> {
    if config.safety.dangerous_patterns@.len() == 0 {
        builtin_patterns()
    } else {
        config.safety.dangerous_patterns.deep_view()
    }
}

/// Every pattern of `ps` is a valid regular expression.
pub open spec fn all_patterns_ok(ps: Seq<Seq<char>>) -> bool {
    forall|i: int| 0 <= i < ps.len() ==> regex_ok(ps[i])
}

/// The position of the first invalid pattern of `ps` at or after `i`.
pub open spec fn first_bad_pattern(ps: Seq<Seq<char>>, i: int) -> Option<int>
    decreases ps.len() - i,
{
    if i < 0 || i >= ps.len() {
        None
    } else if !regex_ok(ps[i]) {
        Some(i)
    } else {
        first_bad_pattern(ps, i + 1)
    }
}

/// A compiled dangerous-pattern set: the pattern sources, each known to be
/// a valid regular expression.
#[derive(Debug, PartialEq, Eq)]
pub struct PatternSet {
    /// The pattern sources, in configuration order.
    pub patterns: Vec<String>,
}

impl PatternSet {
    /// Every held pattern compiles.
    pub open spec fn wf(self) -> bool {
        all_patterns_ok(self.patterns.deep_view())
    }
}

/// Why a pattern set could not be compiled: the first invalid pattern.
#[derive(Debug, Clone, PartialEq, Eq)]
pub struct PatternError {
    /// Position of the invalid pattern.
    pub index: usize,
    /// Its source text.
    pub pattern: String,
}

/// Compilation under `config` yields exactly `r`.
pub open spec fn compile_result_is(config: FileConfig, r: Result<PatternSet, PatternError>) -> bool {
    let ps = effective_patterns(config);
    match r {
        Ok(set) => all_patterns_ok(ps) && set.patterns.deep_view() == ps,
        Err(e) => {
            &&& first_bad_pattern(ps, 0) == Some(e.index as int)
            &&& e.pattern@ == ps[e.index as int]
        },
    }
}

/// Compiles the dangerous patterns of `config` (or the built-in defaults
/// when it has none), failing on the first invalid pattern.
pub fn compile_dangerous_regexes(config: &FileConfig) -> (r: Result<PatternSet, PatternError>)
    ensures
        compile_result_is(*config, r),
        r is Ok ==> r->Ok_0.wf(),
{
    broadcast use vstd::std_specs::vec::vec_clone_deep_view_proof;

    let sources: Vec<String> = if config.safety.dangerous_patterns.len() == 0 {
        default_dangerous_patterns()
    } else {
        config.safety.dangerous_patterns.clone()
    };
    let ghost ps = effective_patterns(*config);
    proof {
        assert(sources.deep_view() =~= ps);
    }
    let mut i: usize = 0;
    while i < sources.len()
        invariant
            0 <= i <= sources@.len(),
            ps == effective_patterns(*config),
            sources.deep_view() == ps,
            forall|j: int| 0 <= j < i ==> regex_ok(ps[j]),
            first_bad_pattern(ps, 0) == first_bad_pattern(ps, i as int),
        decreases sources@.len() - i,
    {
        proof {
            assert(sources[i as int]@ == ps[i as int]);
        }
        if try_match(sources[i].as_str(), "").is_none() {
            let e = PatternError { index: i, pattern: sources[i].clone() };
            return Err(e);
        }
        i = i + 1;
    }
    Ok(PatternSet { patterns: sources })
}

/// A command counts as dangerous under pattern sources `ps`: some pattern
/// matches it, or some pattern is invalid (an uncheckable input is never
/// treated as checked).
pub open spec fn dangerous_spec(ps: Seq<Seq<char>>, cmd: Seq<char>) -> bool {
    !all_patterns_ok(ps) || exists|i: int| 0 <= i < ps.len() && regex_match(ps[i], cmd)
}

/// An invalid pattern makes every command count as dangerous: an input
/// that cannot be checked is never treated as checked.
pub proof fn lemma_invalid_pattern_fail_safe(ps: Seq<Seq<char>>, cmd: Seq<char>)
    requires
        !all_patterns_ok(ps),
    ensures
        dangerous_spec(ps, cmd),
{
}

proof fn lemma_first_bad_is_bad(ps: Seq<Seq<char>>, i: int)
    requires
        first_bad_pattern(ps, i) is Some,
    ensures
        0 <= first_bad_pattern(ps, i)->0 < ps.len(),
        !regex_ok(ps[first_bad_pattern(ps, i)->0]),
    decreases ps.len() - i,
{
    if !(i < 0 || i >= ps.len()) && regex_ok(ps[i]) {
        lemma_first_bad_is_bad(ps, i + 1);
    }
}

/// Compiling the same configuration twice gives the same outcome: the
/// compiled pattern set, and the reported failure, are functions of the
/// configuration alone.
pub proof fn lemma_compile_deterministic(
    config: FileConfig,
    r1: Result<PatternSet, PatternError>,
    r2: Result<PatternSet, PatternError>,
)
    requires
        compile_result_is(config, r1),
        compile_result_is(config, r2),
    ensures
        match (r1, r2) {
            (Ok(a), Ok(b)) => a.patterns.deep_view() == b.patterns.deep_view(),
            (Err(a), Err(b)) => a.index == b.index && a.pattern@ == b.pattern@,
            _ => false,
        },
{
    let ps = effective_patterns(config);
    match (r1, r2) {
        (Ok(a), Err(b)) => {
            lemma_first_bad_is_bad(ps, 0);
        },
        (Err(a), Ok(b)) => {
            lemma_first_bad_is_bad(ps, 0);
        },
        _ => {},
    }
}

/// The process-lifetime cache of the compiled pattern set, held as
/// explicit state by the caller.
#[derive(Debug)]
pub struct RegexCache {
    /// The compilation outcome, once computed.
    pub compiled: Option<Result<PatternSet, PatternError>>,
}

impl RegexCache {
    /// An empty cache: nothing compiled yet.
    pub fn new() -> (r: RegexCache)
        ensures
            r.compiled is None,
    {
        RegexCache { compiled: None }
    }
}

/// Fills the cache on first use and leaves it alone afterwards: after the
/// call it holds a compilation outcome, and one for `config` when it was
/// empty before.
pub fn get_dangerous_regexes(cache: &mut RegexCache, config: &FileConfig)
    ensures
        final(cache).compiled is Some,
        old(cache).compiled is Some ==> *final(cache) == *old(cache),
        old(cache).compiled is None ==> compile_result_is(
            *config,
            final(cache).compiled->Some_0,
        ),
{
    if cache.compiled.is_none() {
        cache.compiled = Some(compile_dangerous_regexes(config));
    }
}

/// Empties the cache, so that the next use compiles afresh.
pub fn reset_regex_cache(cache: &mut RegexCache)
    ensures
        final(cache).compiled is None,
{
    cache.compiled = None;
}

} // verus!

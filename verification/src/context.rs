//! The context data handed to prompt building: a system snapshot, the
//! working directory, files, history and piped input. Gathering happens
//! outside the library; the shaping and formatting of what was gathered
//! is decided here.

use vstd::prelude::*;
use crate::merger::pairs_view;
use crate::prompt::rfind_char;
use crate::strutil::{dec_digits, matches_at, pattern_at, replace_all, replace_str, str_eq};

verus! {

/// A snapshot of system information, gathered once per run.
#[derive(Debug, Clone, PartialEq, Eq)]
pub struct SystemInfo {
    /// Operating system name.
    pub os_name: String,
    /// Operating system version.
    pub os_version: String,
    /// Processor architecture.
    pub architecture: String,
    /// The user's shell, by name.
    pub shell: String,
    /// The user name.
    pub user: String,
    /// Total memory in bytes.
    pub total_memory: u64,
}

/// Everything gathered for one prompt.
#[derive(Debug, Clone, PartialEq, Eq)]
pub struct ContextData {
    /// The formatted system snapshot, as key-value pairs.
    pub system: Vec<(String, String)>,
    /// The working directory.
    pub cwd: String,
    /// Files listed from the working directory.
    pub files: Vec<String>,
    /// Recent shell-history lines.
    pub history: Vec<String>,
    /// Piped standard input, when there was any.
    pub stdin: Option<String>,
}

/// The key-value pairs a system snapshot is formatted into, with the
/// memory figure in whole mebibytes.
pub open spec fn system_info_pairs(info: SystemInfo) -> Seq<(Seq<char>, Seq<char>)> {
    seq![
        ("os_name"@, info.os_name@),
        ("os_version"@, info.os_version@),
        ("architecture"@, info.architecture@),
        ("shell"@, info.shell@),
        ("user"@, info.user@),
        ("total_memory_mb"@, dec_digits(info.total_memory as int / 1024 / 1024)),
    ]
}

/// Formats a system snapshot as key-value pairs for prompt context.
pub fn format_system_info(info: &SystemInfo) -> (r: Vec<(String, String)>)
    ensures
        pairs_view(r@) == system_info_pairs(*info),
{
    let mut v: Vec<(String, String)> = Vec::new();
    v.push(("os_name".to_owned(), info.os_name.clone()));
    v.push(("os_version".to_owned(), info.os_version.clone()));
    v.push(("architecture".to_owned(), info.architecture.clone()));
    v.push(("shell".to_owned(), info.shell.clone()));
    v.push(("user".to_owned(), info.user.clone()));
    let mb = crate::strutil::u64_to_string(info.total_memory / 1024 / 1024);
    v.push(("total_memory_mb".to_owned(), mb));
    proof {
        assert(pairs_view(v@) =~= system_info_pairs(*info));
    }
    v
}

/// `s` without its trailing slashes.
pub open spec fn strip_trailing_slashes(s: Seq<char>) -> Seq<char>
    decreases s.len(),
{
    if s.len() > 0 && s.last() == '/' {
        strip_trailing_slashes(s.drop_last())
    } else {
        s
    }
}

/// The final path component: what follows the last slash, ignoring
/// trailing slashes.
pub open spec fn basename_spec(s: Seq<char>) -> Seq<char> {
    let t = strip_trailing_slashes(s);
    match rfind_char(t, '/') {
        Some(i) => t.skip(i + 1),
        None => t,
    }
}

/// What path truncation yields: a path within the bound is unchanged;
/// a longer one is cut to its final component, unless that component is
/// empty or a parent reference, in which case the path stays whole.
pub open spec fn truncate_path_spec(s: Seq<char>, max_length: int) -> Seq<char> {
    if s.len() <= max_length {
        s
    } else {
        let b = basename_spec(s);
        if b.len() == 0 || b == seq!['.', '.'] {
            s
        } else {
            b
        }
    }
}

/// Truncates a path for prompt context: a path longer than `max_length`
/// is cut to its final component (the whole path stays when there is no
/// usable component).
pub fn truncate_path(path: &str, max_length: usize) -> (r: String)
    ensures
        r@ == truncate_path_spec(path@, max_length as int),
{
    proof {
        reveal_strlit("..");
        assert(".."@ =~= seq!['.', '.']);
    }
    let n: usize = path.unicode_len();
    if n <= max_length {
        return path.to_owned();
    }
    let mut end: usize = n;
    proof {
        assert(path@.take(n as int) =~= path@);
    }
    while end > 0 && path.get_char(end - 1) == '/'
        invariant
            0 <= end <= n,
            n == path@.len(),
            strip_trailing_slashes(path@) == strip_trailing_slashes(path@.take(end as int)),
        decreases end,
    {
        proof {
            assert(path@.take(end as int).last() == path@[end - 1]);
            assert(path@.take(end as int).drop_last() =~= path@.take(end - 1));
        }
        end = end - 1;
    }
    let ghost t = strip_trailing_slashes(path@);
    proof {
        if end > 0 {
            assert(path@.take(end as int).last() == path@[end - 1]);
        }
        assert(t == path@.take(end as int));
    }
    let stripped = path.substring_char(0, end);
    proof {
        assert(stripped@ =~= t);
    }
    let base: String = match crate::prompt::rfind_char_in(stripped, '/') {
        Some(i) => {
            proof {
                assert(stripped@.subrange(i + 1, stripped@.len() as int) =~= t.skip(i + 1));
            }
            stripped.substring_char(i + 1, end).to_owned()
        },
        None => stripped.to_owned(),
    };
    if base.unicode_len() == 0 {
        return path.to_owned();
    }
    if crate::strutil::str_eq(base.as_str(), "..") {
        return path.to_owned();
    }
    base
}

/// The directory-context line of the prompt: the working directory and
/// the count of listed files.
pub open spec fn dir_context_spec(cwd: Seq<char>, file_count: int) -> Seq<char> {
    "Current directory: "@ + cwd + "\nFiles: "@ + dec_digits(file_count)
}

/// Formats the directory context handed to prompt building.
pub fn format_dir_context(cwd: &str, file_count: usize) -> (r: String)
    ensures
        r@ == dir_context_spec(cwd@, file_count as int),
{
    let mut s = String::new();
    s.append("Current directory: ");
    s.append(cwd);
    s.append("\nFiles: ");
    let num = crate::strutil::u64_to_string(file_count as u64);
    s.append(num.as_str());
    s
}

/// The first `i` key-value pairs rendered as `key: value`, joined with
/// commas.
pub open spec fn pairs_joined(pairs: Seq<(Seq<char>, Seq<char>)>, i: int) -> Seq<char>
    decreases i,
{
    if i <= 0 {
        Seq::empty()
    } else {
        pairs_joined(pairs, i - 1) + (if i - 1 > 0 {
            ", "@
        } else {
            Seq::<char>::empty()
        }) + pairs[i - 1].0 + ": "@ + pairs[i - 1].1
    }
}

/// Renders the formatted system snapshot as the system-context text of
/// the prompt: `key: value` pairs joined with commas.
pub fn format_system_context(pairs: &Vec<(String, String)>) -> (r: String)
    ensures
        r@ == pairs_joined(pairs_view(pairs@), pairs@.len() as int),
{
    let ghost pv = pairs_view(pairs@);
    let mut s = String::new();
    let mut i: usize = 0;
    proof {
        assert(s@ =~= pairs_joined(pv, 0));
    }
    while i < pairs.len()
        invariant
            0 <= i <= pairs@.len(),
            pv == pairs_view(pairs@),
            pv.len() == pairs@.len(),
            s@ == pairs_joined(pv, i as int),
        decreases pairs@.len() - i,
    {
        if i > 0 {
            s.append(", ");
        }
        s.append(pairs[i].0.as_str());
        s.append(": ");
        s.append(pairs[i].1.as_str());
        proof {
            assert(pv[i as int] == (pairs@[i as int].0@, pairs@[i as int].1@));
            assert(s@ =~= pairs_joined(pv, i + 1));
        }
        i = i + 1;
    }
    s
}

/// The marker put in place of redacted path components.
pub open spec fn redacted() -> Seq<char> {
    "[REDACTED]"@
}

/// The home-prefix step of redaction: a path starting with the home
/// directory loses that prefix to the marker.
pub open spec fn redact_home_prefix(p: Seq<char>, home: Option<Seq<char>>) -> Seq<char> {
    match home {
        Some(h) => if h.len() > 0 && matches_at(p, h, 0) {
            redacted() + p.skip(h.len() as int)
        } else {
            p
        },
        None => p,
    }
}

/// The tilde step: a leading `~/` becomes the marker and a slash, and a
/// bare `~` becomes the marker.
pub open spec fn redact_tilde(p: Seq<char>) -> Seq<char> {
    if matches_at(p, seq!['~', '/'], 0) {
        redacted() + seq!['/'] + p.skip(2)
    } else if p == seq!['~'] {
        redacted()
    } else {
        p
    }
}

/// The dollar-prefixed home step: a leading `$`, the home directory and a
/// slash become the marker and a slash.
pub open spec fn redact_dollar_home(p: Seq<char>, home: Option<Seq<char>>) -> Seq<char> {
    match home {
        Some(h) => {
            let pat = seq!['$'] + h + seq!['/'];
            if h.len() > 0 && matches_at(p, pat, 0) {
                redacted() + seq!['/'] + p.skip(pat.len() as int)
            } else {
                p
            }
        },
        None => p,
    }
}

/// The user step: every occurrence of `/home/<user>/` becomes the marker
/// and a slash.
pub open spec fn redact_user(p: Seq<char>, user: Option<Seq<char>>) -> Seq<char> {
    match user {
        Some(u) => if u.len() > 0 {
            replace_all(p, "/home/"@ + u + seq!['/'], redacted() + seq!['/'])
        } else {
            p
        },
        None => p,
    }
}

/// What path redaction yields: the home prefix, a leading tilde, the
/// dollar-prefixed home, and every `/home/<user>/` component give way to
/// the marker, in that order.
pub open spec fn redact_path_spec(
    p: Seq<char>,
    home: Option<Seq<char>>,
    user: Option<Seq<char>>,
) -> Seq<char> {
    redact_user(redact_dollar_home(redact_tilde(redact_home_prefix(p, home)), home), user)
}

/// Redacts a path before it leaves the machine: the home directory (as a
/// prefix, behind a tilde, or behind a dollar sign) and any
/// `/home/<user>/` component are replaced by a marker. The home and user
/// values come from the environment outside the library.
pub fn redact_path(path: &str, home: Option<&str>, user: Option<&str>) -> (r: String)
    ensures
        r@ == redact_path_spec(path@, match home {
            Some(h) => Some(h@),
            None => None,
        }, match user {
            Some(u) => Some(u@),
            None => None,
        }),
{
    proof {
        reveal_strlit("[REDACTED]");
        reveal_strlit("[REDACTED]/");
        reveal_strlit("~/");
        reveal_strlit("~");
        reveal_strlit("$");
        reveal_strlit("/");
        reveal_strlit("/home/");
        assert("[REDACTED]/"@ =~= redacted() + seq!['/']);
        assert("~/"@ =~= seq!['~', '/']);
        assert("~"@ =~= seq!['~']);
        assert("$"@ =~= seq!['$']);
        assert("/"@ =~= seq!['/']);
    }
    let mut p: String = path.to_owned();
    match home {
        Some(h) => {
            let n: usize = p.as_str().unicode_len();
            let hl: usize = h.unicode_len();
            if hl > 0 && pattern_at(p.as_str(), n, h, 0) {
                let mut next = "[REDACTED]".to_owned();
                next.append(p.as_str().substring_char(hl, n));
                proof {
                    assert(p@.subrange(hl as int, n as int) =~= p@.skip(hl as int));
                }
                p = next;
            }
        },
        None => {},
    }
    proof {
        assert(p@ == redact_home_prefix(path@, match home {
            Some(h) => Some(h@),
            None => None,
        }));
    }
    let n: usize = p.as_str().unicode_len();
    if pattern_at(p.as_str(), n, "~/", 0) {
        let mut next = "[REDACTED]/".to_owned();
        next.append(p.as_str().substring_char(2, n));
        proof {
            assert(p@.subrange(2, n as int) =~= p@.skip(2));
        }
        p = next;
    } else if str_eq(p.as_str(), "~") {
        p = "[REDACTED]".to_owned();
    }
    match home {
        Some(h) => {
            let hl: usize = h.unicode_len();
            if hl > 0 {
                let mut pat = "$".to_owned();
                pat.append(h);
                pat.append("/");
                let n2: usize = p.as_str().unicode_len();
                let pl: usize = pat.as_str().unicode_len();
                if pattern_at(p.as_str(), n2, pat.as_str(), 0) {
                    let mut next = "[REDACTED]/".to_owned();
                    next.append(p.as_str().substring_char(pl, n2));
                    proof {
                        assert(p@.subrange(pl as int, n2 as int) =~= p@.skip(pl as int));
                    }
                    p = next;
                }
            }
        },
        None => {},
    }
    match user {
        Some(u) => {
            if u.unicode_len() > 0 {
                let mut pat = "/home/".to_owned();
                pat.append(u);
                pat.append("/");
                proof {
                    assert(pat@ =~= "/home/"@ + u@ + seq!['/']);
                }
                p = replace_str(p.as_str(), pat.as_str(), "[REDACTED]/");
            }
        },
        None => {},
    }
    p
}

} // verus!

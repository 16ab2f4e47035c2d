//! Locale parsing. The locale value itself comes from the environment
//! outside the library.

use vstd::prelude::*;
use crate::strutil::{find_from, find_str, lemma_find_from_some, str_eq};

verus! {

/// The prefix of `s` before the first occurrence of `c`, or all of `s`.
pub open spec fn prefix_before(s: Seq<char>, c: char) -> Seq<char> {
    match find_from(s, seq![c], 0) {
        Some(i) => s.take(i),
        None => s,
    }
}

fn take_before(s: &str, pat: &str, ghost_c: Ghost<char>) -> (r: String)
    requires
        pat@ == seq![ghost_c@],
    ensures
        r@ == prefix_before(s@, ghost_c@),
{
    let n: usize = s.unicode_len();
    match find_str(s, pat, 0) {
        Some(i) => {
            proof {
                lemma_find_from_some(s@, pat@, 0);
                assert(s@.subrange(0, i as int) =~= s@.take(i as int));
            }
            s.substring_char(0, i).to_owned()
        },
        None => s.to_owned(),
    }
}

/// The language code of a locale string: the part before the first `_` or
/// `.` (so `en_US.UTF-8` gives `en`, and `C` stays `C`).
pub open spec fn language_code_spec(locale: Seq<char>) -> Seq<char> {
    prefix_before(prefix_before(locale, '_'), '.')
}

/// Extracts the language code from a locale string.
pub fn get_language_code(locale: &str) -> (r: String)
    ensures
        r@ == language_code_spec(locale@),
{
    proof {
        reveal_strlit("_");
        reveal_strlit(".");
        assert("_"@ =~= seq!['_']);
        assert("."@ =~= seq!['.']);
    }
    let first = take_before(locale, "_", Ghost('_'));
    take_before(first.as_str(), ".", Ghost('.'))
}

/// Whether the locale is the POSIX one, which carries no language.
pub fn is_c_locale(locale: &str) -> (r: bool)
    ensures
        r == (locale@ == "C"@ || locale@ == "POSIX"@),
{
    str_eq(locale, "C") || str_eq(locale, "POSIX")
}

} // verus!

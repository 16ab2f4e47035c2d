//! Verified character-level string helpers shared by the parsing and
//! formatting modules: whitespace trimming, substring search, and decimal
//! rendering of integers.

use vstd::prelude::*;

verus! {

/// The whitespace characters recognised by the trimming and fence-parsing
/// functions: the characters with the Unicode White_Space property, the
/// set behind `char::is_whitespace` and the regex class `\s`.
pub open spec fn is_space_char(c: char) -> bool {
    ('\u{9}' <= c && c <= '\u{d}') || c == ' ' || c == '\u{85}' || c == '\u{a0}'
        || c == '\u{1680}' || ('\u{2000}' <= c && c <= '\u{200a}') || c == '\u{2028}'
        || c == '\u{2029}' || c == '\u{202f}' || c == '\u{205f}' || c == '\u{3000}'
}

/// Executable test for `is_space_char`.
pub fn is_space(c: char) -> (r: bool)
    ensures
        r == is_space_char(c),
{
    ('\u{9}' <= c && c <= '\u{d}') || c == ' ' || c == '\u{85}' || c == '\u{a0}'
        || c == '\u{1680}' || ('\u{2000}' <= c && c <= '\u{200a}') || c == '\u{2028}'
        || c == '\u{2029}' || c == '\u{202f}' || c == '\u{205f}' || c == '\u{3000}'
}

/// `s` with leading whitespace removed.
pub open spec fn trim_start_spec(s: Seq<char>) -> Seq<char>
    decreases s.len(),
{
    if s.len() == 0 {
        s
    } else if is_space_char(s[0]) {
        trim_start_spec(s.drop_first())
    } else {
        s
    }
}

/// `s` with trailing whitespace removed.
pub open spec fn trim_end_spec(s: Seq<char>) -> Seq<char>
    decreases s.len(),
{
    if s.len() == 0 {
        s
    } else if is_space_char(s.last()) {
        trim_end_spec(s.drop_last())
    } else {
        s
    }
}

/// `s` with surrounding whitespace removed.
pub open spec fn trim_spec(s: Seq<char>) -> Seq<char> {
    trim_end_spec(trim_start_spec(s))
}

proof fn lemma_trim_start_subrange(s: Seq<char>, k: int)
    requires
        0 <= k <= s.len(),
        forall|i: int| 0 <= i < k ==> is_space_char(s[i]),
        k < s.len() ==> !is_space_char(s[k]),
    ensures
        trim_start_spec(s) == s.subrange(k, s.len() as int),
    decreases k,
{
    if k == 0 {
        assert(s.subrange(0, s.len() as int) =~= s);
        if s.len() > 0 && is_space_char(s[0]) {
            assert(false);
        }
    } else {
        assert(is_space_char(s[0]));
        let t = s.drop_first();
        assert(forall|i: int| 0 <= i < k - 1 ==> is_space_char(t[i]));
        lemma_trim_start_subrange(t, k - 1);
        assert(t.subrange(k - 1, t.len() as int) =~= s.subrange(k, s.len() as int));
    }
}

proof fn lemma_trim_end_subrange(s: Seq<char>, k: int)
    requires
        0 <= k <= s.len(),
        forall|i: int| k <= i < s.len() ==> is_space_char(s[i]),
        k > 0 ==> !is_space_char(s[k - 1]),
    ensures
        trim_end_spec(s) == s.subrange(0, k),
    decreases s.len() - k,
{
    if k == s.len() {
        assert(s.subrange(0, s.len() as int) =~= s);
        if s.len() > 0 && is_space_char(s.last()) {
            assert(false);
        }
    } else {
        assert(is_space_char(s.last()));
        let t = s.drop_last();
        lemma_trim_end_subrange(t, k);
        assert(t.subrange(0, k) =~= s.subrange(0, k));
    }
}

/// Returns the bounds of the whitespace-trimmed interior of `s`:
/// the pair `(start, end)` with `s@.subrange(start, end) == trim_spec(s@)`.
pub fn trim_bounds(s: &str) -> (r: (usize, usize))
    ensures
        r.0 <= r.1 <= s@.len(),
        s@.subrange(r.0 as int, r.1 as int) == trim_spec(s@),
{
    let n: usize = s.unicode_len();
    let mut start: usize = 0;
    while start < n && is_space(s.get_char(start))
        invariant
            0 <= start <= n,
            n == s@.len(),
            forall|i: int| 0 <= i < start ==> is_space_char(s@[i]),
        decreases n - start,
    {
        start = start + 1;
    }
    let mut end: usize = n;
    while end > start && is_space(s.get_char(end - 1))
        invariant
            start <= end <= n,
            n == s@.len(),
            forall|i: int| 0 <= i < start ==> is_space_char(s@[i]),
            forall|i: int| end <= i < n ==> is_space_char(s@[i]),
        decreases end,
    {
        end = end - 1;
    }
    proof {
        lemma_trim_start_subrange(s@, start as int);
        let t = s@.subrange(start as int, n as int);
        if end == start {
            lemma_trim_end_subrange(t, 0);
        } else {
            lemma_trim_end_subrange(t, end - start);
        }
        assert(t.subrange(0, end - start) =~= s@.subrange(start as int, end as int));
    }
    (start, end)
}

/// The whitespace-trimmed copy of `s`.
pub fn trim_to_string(s: &str) -> (r: String)
    ensures
        r@ == trim_spec(s@),
{
    let (start, end) = trim_bounds(s);
    s.substring_char(start, end).to_owned()
}

/// `pat` occurs in `s` at position `i`.
pub open spec fn matches_at(s: Seq<char>, pat: Seq<char>, i: int) -> bool {
    0 <= i && i + pat.len() <= s.len() && s.subrange(i, i + pat.len()) == pat
}

/// Executable test for `matches_at`.
pub fn pattern_at(s: &str, s_len: usize, pat: &str, i: usize) -> (r: bool)
    requires
        s_len == s@.len(),
    ensures
        r == matches_at(s@, pat@, i as int),
{
    let m: usize = pat.unicode_len();
    if i > s_len || m > s_len - i {
        return false;
    }
    let mut j: usize = 0;
    while j < m
        invariant
            0 <= j <= m,
            m == pat@.len(),
            s_len == s@.len(),
            i + m <= s_len,
            forall|k: int| 0 <= k < j ==> s@[i + k] == pat@[k],
        decreases m - j,
    {
        if s.get_char(i + j) != pat.get_char(j) {
            assert(s@.subrange(i as int, i + m) != pat@) by {
                assert(s@.subrange(i as int, i + m)[j as int] != pat@[j as int]);
            }
            return false;
        }
        j = j + 1;
    }
    assert(s@.subrange(i as int, i + m) =~= pat@);
    true
}

/// The position of the first occurrence of `pat` in `s` at or after `from`.
pub open spec fn find_from(s: Seq<char>, pat: Seq<char>, from: int) -> Option<int>
    decreases s.len() + 1 - from,
{
    if from + pat.len() > s.len() {
        None
    } else if matches_at(s, pat, from) {
        Some(from)
    } else {
        find_from(s, pat, from + 1)
    }
}

/// A found position is a real match, at or after `from`.
pub proof fn lemma_find_from_some(s: Seq<char>, pat: Seq<char>, from: int)
    requires
        find_from(s, pat, from) is Some,
    ensures
        matches_at(s, pat, find_from(s, pat, from)->Some_0),
        find_from(s, pat, from)->Some_0 >= from,
    decreases s.len() + 1 - from,
{
    if !(from + pat.len() > s.len()) && !matches_at(s, pat, from) {
        lemma_find_from_some(s, pat, from + 1);
    }
}

/// Executable search for the first occurrence of `pat` at or after `from`.
pub fn find_str(s: &str, pat: &str, from: usize) -> (r: Option<usize>)
    ensures
        match r {
            Some(i) => Some(i as int) == find_from(s@, pat@, from as int),
            None => find_from(s@, pat@, from as int) is None,
        },
{
    let n: usize = s.unicode_len();
    let m: usize = pat.unicode_len();
    if from > n || m > n - from {
        return None;
    }
    if m == 0 {
        proof {
            assert(s@.subrange(from as int, from as int) =~= pat@);
        }
        return Some(from);
    }
    let mut i: usize = from;
    while i <= n - m
        invariant
            from <= i,
            1 <= m <= n,
            i <= n - m + 1,
            n == s@.len(),
            m == pat@.len(),
            find_from(s@, pat@, from as int) == find_from(s@, pat@, i as int),
        decreases n - i,
    {
        if pattern_at(s, n, pat, i) {
            return Some(i);
        }
        i = i + 1;
    }
    None
}

/// Relies on std's `String::push`: appends exactly the given character.
#[verifier::external_body]
pub fn push_char(s: &mut String, c: char)
    ensures
        final(s)@ == old(s)@ + seq![c],
{
    s.push(c);
}

/// Character-wise string equality.
pub fn str_eq(a: &str, b: &str) -> (r: bool)
    ensures
        r == (a@ == b@),
{
    let n: usize = a.unicode_len();
    let m: usize = b.unicode_len();
    if n != m {
        proof {
            if a@ == b@ {
                assert(a@.len() == b@.len());
            }
        }
        return false;
    }
    let r = pattern_at(a, n, b, 0);
    proof {
        if r {
            assert(a@.subrange(0, m as int) =~= a@);
        } else {
            if a@ == b@ {
                assert(a@.subrange(0, m as int) =~= b@);
            }
        }
    }
    r
}

/// The decimal digit with value `d`.
pub open spec fn digit_char(d: int) -> char {
    if d == 0 { '0' }
    else if d == 1 { '1' }
    else if d == 2 { '2' }
    else if d == 3 { '3' }
    else if d == 4 { '4' }
    else if d == 5 { '5' }
    else if d == 6 { '6' }
    else if d == 7 { '7' }
    else if d == 8 { '8' }
    else { '9' }
}

/// The decimal rendering of a non-negative integer, most significant digit
/// first, with no leading zeros (a single `'0'` for zero).
pub open spec fn dec_digits(n: int) -> Seq<char>
    decreases n,
{
    if n < 10 {
        seq![digit_char(n)]
    } else {
        dec_digits(n / 10) + seq![digit_char(n % 10)]
    }
}

fn digit_to_str(d: u64) -> (r: &'static str)
    requires
        d < 10,
    ensures
        r@ == seq![digit_char(d as int)],
{
    proof {
        reveal_strlit("0");
        reveal_strlit("1");
        reveal_strlit("2");
        reveal_strlit("3");
        reveal_strlit("4");
        reveal_strlit("5");
        reveal_strlit("6");
        reveal_strlit("7");
        reveal_strlit("8");
        reveal_strlit("9");
    }
    let r = match d {
        0 => "0",
        1 => "1",
        2 => "2",
        3 => "3",
        4 => "4",
        5 => "5",
        6 => "6",
        7 => "7",
        8 => "8",
        _ => "9",
    };
    proof {
        assert(r@ =~= seq![digit_char(d as int)]);
    }
    r
}

/// Renders `n` in decimal.
pub fn u64_to_string(n: u64) -> (r: String)
    ensures
        r@ == dec_digits(n as int),
    decreases n,
{
    if n < 10 {
        digit_to_str(n).to_owned()
    } else {
        let mut r = u64_to_string(n / 10);
        r.append(digit_to_str(n % 10));
        r
    }
}

/// `c` is a decimal digit.
pub open spec fn is_digit_char(c: char) -> bool {
    '0' <= c <= '9'
}

/// The value of the digit `c`.
pub open spec fn digit_val(c: char) -> int {
    c as int - '0' as int
}

/// The value of a digit string, most significant digit first.
pub open spec fn digits_val(s: Seq<char>) -> int
    decreases s.len(),
{
    if s.len() == 0 {
        0
    } else {
        digits_val(s.drop_last()) * 10 + digit_val(s.last())
    }
}

/// Every character of `s` is a decimal digit.
pub open spec fn all_digits(s: Seq<char>) -> bool {
    forall|i: int| 0 <= i < s.len() ==> is_digit_char(s[i])
}

/// What `str::parse::<u32>` accepts: an optional leading `'+'`, then at
/// least one digit, with a value that fits in `u32`.
pub open spec fn parse_u32_spec(s: Seq<char>) -> Option<u32> {
    let body = if s.len() > 0 && s[0] == '+' { s.drop_first() } else { s };
    if body.len() > 0 && all_digits(body) && digits_val(body) <= u32::MAX {
        Some(digits_val(body) as u32)
    } else {
        None
    }
}

proof fn lemma_digits_val_nonneg(s: Seq<char>)
    requires
        all_digits(s),
    ensures
        digits_val(s) >= 0,
    decreases s.len(),
{
    if s.len() > 0 {
        lemma_digits_val_nonneg(s.drop_last());
    }
}

proof fn lemma_digits_val_grows(s: Seq<char>, k: int)
    requires
        all_digits(s),
        0 <= k <= s.len(),
    ensures
        digits_val(s.subrange(0, k)) <= digits_val(s),
    decreases s.len() - k,
{
    if k < s.len() {
        lemma_digits_val_grows(s, k + 1);
        let p = s.subrange(0, k);
        let q = s.subrange(0, k + 1);
        assert(q.drop_last() =~= p);
        assert(forall|i: int| 0 <= i < p.len() ==> is_digit_char(p[i]));
        lemma_digits_val_nonneg(p);
        assert(digits_val(q) == digits_val(p) * 10 + digit_val(q.last()));
    } else {
        assert(s.subrange(0, k) =~= s);
    }
}

/// Parses a decimal `u32` as `str::parse::<u32>` does.
pub fn parse_u32(s: &str) -> (r: Option<u32>)
    ensures
        r == parse_u32_spec(s@),
{
    let n: usize = s.unicode_len();
    let mut i: usize = 0;
    if n > 0 && s.get_char(0) == '+' {
        i = 1;
    }
    let ghost body = if s@.len() > 0 && s@[0] == '+' { s@.drop_first() } else { s@ };
    let start: usize = i;
    if i == n {
        return None;
    }
    let mut acc: u32 = 0;
    while i < n
        invariant
            start <= i <= n,
            start <= 1,
            n == s@.len(),
            start == 1 ==> s@.len() > 0 && s@[0] == '+',
            start == 0 ==> !(s@.len() > 0 && s@[0] == '+'),
            body == if s@.len() > 0 && s@[0] == '+' { s@.drop_first() } else { s@ },
            forall|k: int| start <= k < i ==> is_digit_char(s@[k]),
            acc == digits_val(s@.subrange(start as int, i as int)),
        decreases n - i,
    {
        let c = s.get_char(i);
        if !(c >= '0' && c <= '9') {
            proof {
                assert(!is_digit_char(body[i - start]));
            }
            return None;
        }
        let d: u32 = c as u32 - 48;
        if acc > (u32::MAX - d) / 10 {
            proof {
                let p = s@.subrange(start as int, i + 1);
                assert(p.drop_last() =~= s@.subrange(start as int, i as int));
                assert(forall|k: int| 0 <= k < p.len() ==> is_digit_char(p[k]));
                lemma_digits_val_nonneg(p);
                assert(digits_val(p) == acc * 10 + d);
                assert(acc >= (u32::MAX - d) / 10 + 1);
                assert(((u32::MAX - d) / 10 + 1) * 10 > u32::MAX - d) by (nonlinear_arith);
                assert(acc * 10 >= ((u32::MAX - d) / 10 + 1) * 10) by (nonlinear_arith)
                    requires
                        acc >= (u32::MAX - d) / 10 + 1,
                        d <= 9,
                ;
                assert(digits_val(p) > u32::MAX);
                let whole = s@.subrange(start as int, n as int);
                if all_digits(whole) {
                    assert(p =~= whole.subrange(0, i + 1 - start));
                    lemma_digits_val_grows(whole, i + 1 - start);
                }
                assert(body =~= whole);
            }
            return None;
        }
        proof {
            let p = s@.subrange(start as int, i + 1);
            assert(p.drop_last() =~= s@.subrange(start as int, i as int));
            assert(acc <= (u32::MAX - d) / 10);
            assert(((u32::MAX - d) / 10) * 10 <= u32::MAX - d) by (nonlinear_arith);
            assert(acc * 10 <= ((u32::MAX - d) / 10) * 10) by (nonlinear_arith)
                requires
                    acc <= (u32::MAX - d) / 10,
            ;
        }
        acc = acc * 10 + d;
        i = i + 1;
    }
    proof {
        assert(s@.subrange(start as int, n as int) =~= body);
        assert(all_digits(body));
        lemma_digits_val_nonneg(body);
    }
    Some(acc)
}

/// What `str::parse::<bool>` accepts: exactly `"true"` or `"false"`.
pub open spec fn parse_bool_spec(s: Seq<char>) -> Option<bool> {
    if s == seq!['t', 'r', 'u', 'e'] {
        Some(true)
    } else if s == seq!['f', 'a', 'l', 's', 'e'] {
        Some(false)
    } else {
        None
    }
}

/// Parses a `bool` as `str::parse::<bool>` does.
pub fn parse_bool(s: &str) -> (r: Option<bool>)
    ensures
        r == parse_bool_spec(s@),
{
    proof {
        reveal_strlit("true");
        reveal_strlit("false");
        assert("true"@ =~= seq!['t', 'r', 'u', 'e']);
        assert("false"@ =~= seq!['f', 'a', 'l', 's', 'e']);
    }
    if str_eq(s, "true") {
        Some(true)
    } else if str_eq(s, "false") {
        Some(false)
    } else {
        None
    }
}

/// `s` from position `i` on, with every non-overlapping occurrence of
/// `pat` replaced by `rep`, scanning left to right.
pub open spec fn replace_from(s: Seq<char>, pat: Seq<char>, rep: Seq<char>, i: int) -> Seq<char>
    decreases s.len() - i,
{
    if i < 0 || i >= s.len() || pat.len() == 0 {
        s.skip(i)
    } else if matches_at(s, pat, i) {
        rep + replace_from(s, pat, rep, i + pat.len())
    } else {
        seq![s[i]] + replace_from(s, pat, rep, i + 1)
    }
}

/// `s` with every non-overlapping occurrence of `pat` replaced by `rep`
/// (for a non-empty `pat`; an empty one leaves `s` unchanged).
pub open spec fn replace_all(s: Seq<char>, pat: Seq<char>, rep: Seq<char>) -> Seq<char> {
    replace_from(s, pat, rep, 0)
}

/// Replaces every non-overlapping occurrence of `pat` in `s` by `rep`,
/// scanning left to right.
pub fn replace_str(s: &str, pat: &str, rep: &str) -> (r: String)
    ensures
        r@ == replace_all(s@, pat@, rep@),
{
    let n: usize = s.unicode_len();
    let m: usize = pat.unicode_len();
    let mut out = String::new();
    let mut i: usize = 0;
    proof {
        assert(s@.skip(0) =~= s@);
        assert(out@ + replace_from(s@, pat@, rep@, 0) =~= replace_from(s@, pat@, rep@, 0));
    }
    if m == 0 {
        return s.to_owned();
    }
    while i < n
        invariant
            0 <= i <= n,
            n == s@.len(),
            1 <= m == pat@.len(),
            replace_all(s@, pat@, rep@) == out@ + replace_from(s@, pat@, rep@, i as int),
        decreases n - i,
    {
        if pattern_at(s, n, pat, i) {
            out.append(rep);
            i = i + m;
        } else {
            push_char(&mut out, s.get_char(i));
            i = i + 1;
        }
    }
    proof {
        assert(s@.skip(n as int) =~= Seq::<char>::empty());
        assert(out@ + s@.skip(n as int) =~= out@);
    }
    out
}

/// `c` lowered, for the ASCII letters; anything else is unchanged.
pub open spec fn lower_char(c: char) -> char {
    if c == 'A' { 'a' }
    else if c == 'B' { 'b' }
    else if c == 'C' { 'c' }
    else if c == 'D' { 'd' }
    else if c == 'E' { 'e' }
    else if c == 'F' { 'f' }
    else if c == 'G' { 'g' }
    else if c == 'H' { 'h' }
    else if c == 'I' { 'i' }
    else if c == 'J' { 'j' }
    else if c == 'K' { 'k' }
    else if c == 'L' { 'l' }
    else if c == 'M' { 'm' }
    else if c == 'N' { 'n' }
    else if c == 'O' { 'o' }
    else if c == 'P' { 'p' }
    else if c == 'Q' { 'q' }
    else if c == 'R' { 'r' }
    else if c == 'S' { 's' }
    else if c == 'T' { 't' }
    else if c == 'U' { 'u' }
    else if c == 'V' { 'v' }
    else if c == 'W' { 'w' }
    else if c == 'X' { 'x' }
    else if c == 'Y' { 'y' }
    else if c == 'Z' { 'z' }
    else { c }
}

/// `s` with its ASCII upper-case letters lowered.
pub open spec fn lower_seq(s: Seq<char>) -> Seq<char> {
    s.map_values(|c: char| lower_char(c))
}

fn lower_char_exec(c: char) -> (r: char)
    ensures
        r == lower_char(c),
{
    match c {
        'A' => 'a',
        'B' => 'b',
        'C' => 'c',
        'D' => 'd',
        'E' => 'e',
        'F' => 'f',
        'G' => 'g',
        'H' => 'h',
        'I' => 'i',
        'J' => 'j',
        'K' => 'k',
        'L' => 'l',
        'M' => 'm',
        'N' => 'n',
        'O' => 'o',
        'P' => 'p',
        'Q' => 'q',
        'R' => 'r',
        'S' => 's',
        'T' => 't',
        'U' => 'u',
        'V' => 'v',
        'W' => 'w',
        'X' => 'x',
        'Y' => 'y',
        'Z' => 'z',
        _ => c,
    }
}

/// Lowers the ASCII upper-case letters of `s`.
pub fn ascii_lowercase(s: &str) -> (r: String)
    ensures
        r@ == lower_seq(s@),
{
    let n: usize = s.unicode_len();
    let mut out = String::new();
    let mut i: usize = 0;
    proof {
        assert(out@ =~= lower_seq(s@.take(0)));
    }
    while i < n
        invariant
            0 <= i <= n,
            n == s@.len(),
            out@ == lower_seq(s@.take(i as int)),
        decreases n - i,
    {
        let c = lower_char_exec(s.get_char(i));
        push_char(&mut out, c);
        proof {
            assert(out@ =~= lower_seq(s@.take(i + 1)));
        }
        i = i + 1;
    }
    proof {
        assert(s@.take(n as int) =~= s@);
    }
    out
}

/// Splitting `s` on commas from position `i` onward, with `cur` the piece
/// read so far: every piece is trimmed and empty pieces are dropped.
pub open spec fn split_clean_from(s: Seq<char>, i: int, cur: Seq<char>) -> Seq<Seq<char>>
    decreases s.len() - i,
{
    if i < 0 || i >= s.len() {
        if trim_spec(cur).len() > 0 {
            seq![trim_spec(cur)]
        } else {
            Seq::empty()
        }
    } else if s[i] == ',' {
        if trim_spec(cur).len() > 0 {
            seq![trim_spec(cur)] + split_clean_from(s, i + 1, Seq::empty())
        } else {
            split_clean_from(s, i + 1, Seq::empty())
        }
    } else {
        split_clean_from(s, i + 1, cur.push(s[i]))
    }
}

/// `s` split on commas, each piece trimmed, empty pieces dropped.
pub open spec fn split_commas_clean(s: Seq<char>) -> Seq<Seq<char>> {
    split_clean_from(s, 0, Seq::empty())
}

/// Splits `s` on commas, trims each piece, and drops empty pieces.
pub fn split_commas_trimmed(s: &str) -> (r: Vec<String>)
    ensures
        r.deep_view() == split_commas_clean(s@),
{
    let n: usize = s.unicode_len();
    let mut out: Vec<String> = Vec::new();
    let mut cur: String = String::new();
    let mut i: usize = 0;
    while i < n
        invariant
            0 <= i <= n,
            n == s@.len(),
            split_commas_clean(s@) == out.deep_view() + split_clean_from(s@, i as int, cur@),
        decreases n - i,
    {
        let c = s.get_char(i);
        if c == ',' {
            let t = trim_to_string(cur.as_str());
            if t.unicode_len() > 0 {
                out.push(t);
                proof {
                    assert(out.deep_view() =~= out.deep_view().subrange(0, out.len() - 1) + seq![trim_spec(cur@)]);
                }
            }
            cur = String::new();
            proof {
                assert(out.deep_view() + split_clean_from(s@, i + 1, Seq::empty())
                    =~= split_commas_clean(s@));
            }
        } else {
            let ghost old_cur = cur@;
            push_char(&mut cur, c);
            proof {
                assert(cur@ =~= old_cur.push(s@[i as int]));
            }
        }
        i = i + 1;
    }
    let t = trim_to_string(cur.as_str());
    if t.unicode_len() > 0 {
        out.push(t);
        proof {
            assert(out.deep_view() =~= out.deep_view().subrange(0, out.len() - 1) + seq![trim_spec(cur@)]);
            assert(out.deep_view() =~= split_commas_clean(s@));
        }
    } else {
        proof {
            assert(out.deep_view() + split_clean_from(s@, n as int, cur@) =~= out.deep_view());
        }
    }
    out
}

} // verus!

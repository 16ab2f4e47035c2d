//! Prompt construction and model-reply parsing.
//!
//! `extract_command` recovers a single shell command from free-form model
//! output by locating a fenced code block (```bash, ```sh, ```shell or
//! unlabeled ```), falling back to the whole trimmed reply.

use vstd::prelude::*;
use crate::chat::{ChatMessage, ChatRequest};
use crate::strutil::{
    dec_digits, find_from, find_str, is_space, is_space_char, lemma_find_from_some, matches_at,
    pattern_at, trim_spec, trim_to_string, u64_to_string,
};

verus! {

/// The fence delimiter.
pub open spec fn backticks() -> Seq<char> {
    seq!['`', '`', '`']
}

/// The position of the first newline reachable from `k` through
/// whitespace, or `None` if a non-whitespace character (or the end of the
/// text) comes first.
pub open spec fn scan_ws_newline(s: Seq<char>, k: int) -> Option<int>
    decreases s.len() - k,
{
    if k < 0 || k >= s.len() {
        None
    } else if s[k] == '\n' {
        Some(k)
    } else if is_space_char(s[k]) {
        scan_ws_newline(s, k + 1)
    } else {
        None
    }
}

/// One alternative of the fence opening: after the delimiter at `i`, the
/// language word `lang`, whitespace containing a newline, and a closing
/// delimiter somewhere after. Yields the content bounds `(start, end)`.
pub open spec fn fence_option_at(s: Seq<char>, i: int, lang: Seq<char>) -> Option<(int, int)> {
    if matches_at(s, lang, i + 3) {
        match scan_ws_newline(s, i + 3 + lang.len()) {
            Some(m) => match find_from(s, backticks(), m + 1) {
                Some(p) => Some((m + 1, p)),
                None => None,
            },
            None => None,
        }
    } else {
        None
    }
}

/// A fenced block opening at `i`: the delimiter, then the first language
/// alternative that completes a block — `bash`, `sh`, `shell`, then no
/// language — in that order of preference.
pub open spec fn fence_at(s: Seq<char>, i: int) -> Option<(int, int)> {
    if matches_at(s, backticks(), i) {
        if fence_option_at(s, i, seq!['b', 'a', 's', 'h']) is Some {
            fence_option_at(s, i, seq!['b', 'a', 's', 'h'])
        } else if fence_option_at(s, i, seq!['s', 'h']) is Some {
            fence_option_at(s, i, seq!['s', 'h'])
        } else if fence_option_at(s, i, seq!['s', 'h', 'e', 'l', 'l']) is Some {
            fence_option_at(s, i, seq!['s', 'h', 'e', 'l', 'l'])
        } else {
            fence_option_at(s, i, Seq::empty())
        }
    } else {
        None
    }
}

/// The content bounds of the first fenced block opening at or after `i`.
pub open spec fn find_fence(s: Seq<char>, i: int) -> Option<(int, int)>
    decreases s.len() + 1 - i,
{
    if i + 3 > s.len() {
        None
    } else if fence_at(s, i) is Some {
        fence_at(s, i)
    } else {
        find_fence(s, i + 1)
    }
}

/// What `extract_command` returns: the trimmed interior of the first
/// fenced code block, or the whole reply trimmed when no block exists.
pub open spec fn extract_command_spec(s: Seq<char>) -> Seq<char> {
    match find_fence(s, 0) {
        Some((a, b)) => trim_spec(s.subrange(a, b)),
        None => trim_spec(s),
    }
}

fn scan_ws_newline_exec(s: &str, n: usize, k: usize) -> (r: Option<usize>)
    requires
        n == s@.len(),
        k <= n,
    ensures
        match r {
            Some(m) => Some(m as int) == scan_ws_newline(s@, k as int) && k <= m < n,
            None => scan_ws_newline(s@, k as int) is None,
        },
{
    let mut m: usize = k;
    loop
        invariant
            k <= m <= n,
            n == s@.len(),
            scan_ws_newline(s@, k as int) == scan_ws_newline(s@, m as int),
        decreases n - m,
    {
        if m >= n {
            return None;
        }
        let c = s.get_char(m);
        if c == '\n' {
            return Some(m);
        }
        if !is_space(c) {
            return None;
        }
        m = m + 1;
    }
}

fn fence_option_exec(s: &str, n: usize, i: usize, lang: &str) -> (r: Option<(usize, usize)>)
    requires
        n == s@.len(),
        i + 3 <= n,
    ensures
        match r {
            Some((a, b)) => fence_option_at(s@, i as int, lang@) == Some((a as int, b as int))
                && a <= b <= n,
            None => fence_option_at(s@, i as int, lang@) is None,
        },
{
    if !pattern_at(s, n, lang, i + 3) {
        return None;
    }
    let lang_len: usize = lang.unicode_len();
    let k: usize = i + 3 + lang_len;
    match scan_ws_newline_exec(s, n, k) {
        Some(m) => {
            match find_str(s, "```", m + 1) {
                Some(p) => {
                    proof {
                        reveal_strlit("```");
                        assert("```"@ =~= backticks());
                        lemma_find_from_some(s@, backticks(), m + 1);
                    }
                    Some((m + 1, p))
                },
                None => {
                    proof {
                        reveal_strlit("```");
                        assert("```"@ =~= backticks());
                    }
                    None
                },
            }
        },
        None => None,
    }
}

fn fence_at_exec(s: &str, n: usize, i: usize) -> (r: Option<(usize, usize)>)
    requires
        n == s@.len(),
        i + 3 <= n,
    ensures
        match r {
            Some((a, b)) => fence_at(s@, i as int) == Some((a as int, b as int)) && a <= b <= n,
            None => fence_at(s@, i as int) is None,
        },
{
    proof {
        reveal_strlit("```");
        reveal_strlit("bash");
        reveal_strlit("sh");
        reveal_strlit("shell");
        reveal_strlit("");
        assert("```"@ =~= backticks());
        assert("bash"@ =~= seq!['b', 'a', 's', 'h']);
        assert("sh"@ =~= seq!['s', 'h']);
        assert("shell"@ =~= seq!['s', 'h', 'e', 'l', 'l']);
        assert(""@ =~= Seq::<char>::empty());
    }
    if !pattern_at(s, n, "```", i) {
        return None;
    }
    let r = fence_option_exec(s, n, i, "bash");
    if r.is_some() {
        return r;
    }
    let r = fence_option_exec(s, n, i, "sh");
    if r.is_some() {
        return r;
    }
    let r = fence_option_exec(s, n, i, "shell");
    if r.is_some() {
        return r;
    }
    fence_option_exec(s, n, i, "")
}

/// Extracts a single command from a model reply: the trimmed interior of
/// the first fenced code block, or the whole reply trimmed when no fence
/// is found. Never fails.
pub fn extract_command(response: &str) -> (r: String)
    ensures
        r@ == extract_command_spec(response@),
{
    let n: usize = response.unicode_len();
    if n >= 3 {
        let mut i: usize = 0;
        while i <= n - 3
            invariant
                3 <= n,
                0 <= i <= n - 2,
                n == response@.len(),
                find_fence(response@, 0) == find_fence(response@, i as int),
            decreases n - i,
        {
            match fence_at_exec(response, n, i) {
                Some((a, b)) => {
                    return trim_to_string(response.substring_char(a, b));
                },
                None => {},
            }
            i = i + 1;
        }
    }
    trim_to_string(response)
}

/// The numbered history lines of the prompt, from index `i` on.
pub open spec fn history_lines(history: Seq<Seq<char>>, i: int) -> Seq<char>
    decreases history.len() - i,
{
    if i < 0 || i >= history.len() {
        Seq::empty()
    } else {
        "  "@ + dec_digits(i + 1) + ". "@ + history[i] + "\n"@ + history_lines(history, i + 1)
    }
}

/// The full prompt: system context, directory context, numbered shell
/// history (omitted when empty), the instruction, and the closing
/// instruction to the model.
pub open spec fn build_prompt_spec(
    system_context: Seq<char>,
    dir_context: Seq<char>,
    history: Seq<Seq<char>>,
    instruction: Seq<char>,
) -> Seq<char> {
    "System Context:\n"@ + system_context + "\n\n"@ + "Directory Context:\n"@ + dir_context
        + "\n\n"@ + (if history.len() == 0 {
        Seq::<char>::empty()
    } else {
        "Recent Shell History:\n"@ + history_lines(history, 0) + "\n"@
    }) + "User Instruction: "@ + instruction + "\n\n"@
        + "Respond ONLY with the executable command. Do not include markdown code fences, explanations, or any other text. Just the command itself."@
}

/// Builds the prompt string from gathered context and the instruction.
pub fn build_prompt(
    system_context: &str,
    dir_context: &str,
    history: &Vec<String>,
    instruction: &str,
) -> (r: String)
    ensures
        r@ == build_prompt_spec(system_context@, dir_context@, history.deep_view(), instruction@),
{
    let mut prompt = String::new();
    prompt.append("System Context:\n");
    prompt.append(system_context);
    prompt.append("\n\n");
    prompt.append("Directory Context:\n");
    prompt.append(dir_context);
    prompt.append("\n\n");
    let ghost h = history.deep_view();
    if history.len() > 0 {
        prompt.append("Recent Shell History:\n");
        let ghost before = prompt@;
        let mut i: usize = 0;
        while i < history.len()
            invariant
                0 <= i <= history.len(),
                h == history.deep_view(),
                h.len() == history.len(),
                before + history_lines(h, 0) == prompt@ + history_lines(h, i as int),
            decreases history.len() - i,
        {
            prompt.append("  ");
            let num = u64_to_string((i + 1) as u64);
            prompt.append(num.as_str());
            prompt.append(". ");
            prompt.append(history[i].as_str());
            prompt.append("\n");
            proof {
                assert(history[i as int]@ == h[i as int]);
            }
            i = i + 1;
        }
        prompt.append("\n");
    }
    prompt.append("User Instruction: ");
    prompt.append(instruction);
    prompt.append("\n\n");
    prompt.append(
        "Respond ONLY with the executable command. Do not include markdown code fences, explanations, or any other text. Just the command itself.",
    );
    proof {
        assert(prompt@ =~= build_prompt_spec(
            system_context@,
            dir_context@,
            h,
            instruction@,
        ));
    }
    prompt
}

/// The prompt with the piped-input section appended: nothing changes
/// when no input was piped or it was empty.
pub open spec fn with_stdin_section(prompt: Seq<char>, stdin: Option<Seq<char>>) -> Seq<char> {
    match stdin {
        Some(s) => if s.len() > 0 {
            prompt + "\n\nStdin input: "@ + s
        } else {
            prompt
        },
        None => prompt,
    }
}

/// Appends the piped standard input, when there was any, as its own
/// section of the prompt.
pub fn append_stdin_section(prompt: String, stdin: Option<&str>) -> (r: String)
    ensures
        r@ == with_stdin_section(prompt@, match stdin {
            Some(s) => Some(s@),
            None => None,
        }),
{
    match stdin {
        Some(s) => {
            if s.unicode_len() > 0 {
                let mut r = prompt;
                r.append("\n\nStdin input: ");
                r.append(s);
                r
            } else {
                prompt
            }
        },
        None => prompt,
    }
}

/// The system message sent with single-command requests.
pub open spec fn single_system_prompt() -> Seq<char> {
    "You are a helpful assistant that converts natural language instructions into executable shell commands. Respond with ONLY the command, no explanations or markdown."@
}

/// Builds the chat request for a single command: a fixed system message,
/// the prompt as the user message, and the model override when given.
pub fn build_chat_request(prompt: String, model: Option<String>) -> (r: ChatRequest)
    ensures
        r.messages@.len() == 2,
        r.messages[0].role is System,
        r.messages[0].content@ == single_system_prompt(),
        r.messages[1].role is User,
        r.messages[1].content@ == prompt@,
        r.model == model,
        r.temperature_milli is None,
        r.max_tokens is None,
{
    let sys = ChatMessage::system(
        "You are a helpful assistant that converts natural language instructions into executable shell commands. Respond with ONLY the command, no explanations or markdown.".to_owned(),
    );
    let user = ChatMessage::user(prompt);
    let mut messages: Vec<ChatMessage> = Vec::new();
    messages.push(sys);
    messages.push(user);
    let request = ChatRequest::new(messages);
    match model {
        Some(m) => request.with_model(m),
        None => request,
    }
}

/// The system message sent with multi-command requests, parameterised by
/// the requested number of options.
pub open spec fn multi_system_prompt(num_options: int) -> Seq<char> {
    "You are a helpful assistant that converts natural language instructions into executable shell commands.\n\nGenerate exactly "@
        + dec_digits(num_options)
        + " different command options that accomplish the user's goal.\nEach command should be a valid, executable shell command.\nProvide alternatives that vary in approach, verbosity, or options used.\n\nIMPORTANT: Respond ONLY with a valid JSON object in this exact format:\n{\"commands\": [\"command1\", \"command2\", \"command3\"]}\n\nRules:\n- Return exactly "@
        + dec_digits(num_options)
        + " commands in the \"commands\" array\n- Each command must be a single string (escape quotes properly)\n- No explanations, comments, or markdown - just the JSON object\n- Commands should be practical alternatives, not duplicates\n- Order from simplest/most common to more advanced/specific"@
}

/// Builds the chat request that asks the model for `num_options` command
/// alternatives in JSON form.
pub fn build_multi_chat_request(prompt: String, num_options: u8, model: Option<String>) -> (r:
    ChatRequest)
    ensures
        r.messages@.len() == 2,
        r.messages[0].role is System,
        r.messages[0].content@ == multi_system_prompt(num_options as int),
        r.messages[1].role is User,
        r.messages[1].content@ == prompt@,
        r.model == model,
        r.temperature_milli is None,
        r.max_tokens is None,
{
    let mut sys_prompt = String::new();
    sys_prompt.append(
        "You are a helpful assistant that converts natural language instructions into executable shell commands.\n\nGenerate exactly ",
    );
    let num = u64_to_string(num_options as u64);
    sys_prompt.append(num.as_str());
    sys_prompt.append(
        " different command options that accomplish the user's goal.\nEach command should be a valid, executable shell command.\nProvide alternatives that vary in approach, verbosity, or options used.\n\nIMPORTANT: Respond ONLY with a valid JSON object in this exact format:\n{\"commands\": [\"command1\", \"command2\", \"command3\"]}\n\nRules:\n- Return exactly ",
    );
    sys_prompt.append(num.as_str());
    sys_prompt.append(
        " commands in the \"commands\" array\n- Each command must be a single string (escape quotes properly)\n- No explanations, comments, or markdown - just the JSON object\n- Commands should be practical alternatives, not duplicates\n- Order from simplest/most common to more advanced/specific",
    );
    let sys = ChatMessage::system(sys_prompt);
    let user = ChatMessage::user(prompt);
    let mut messages: Vec<ChatMessage> = Vec::new();
    messages.push(sys);
    messages.push(user);
    let request = ChatRequest::new(messages);
    match model {
        Some(m) => request.with_model(m),
        None => request,
    }
}

/// The multi-command reply shape the model is asked for: a JSON object
/// with a `commands` array.
#[derive(Debug, Clone, PartialEq, Eq)]
pub struct CommandsResponse {
    /// The command alternatives, in the model's order.
    pub commands: Vec<String>,
}

/// What serde_json yields for `s` parsed as `{"commands": [string, ...]}`:
/// the strings of the `commands` array, or `None` when `s` is not a JSON
/// object whose `commands` key holds an array of strings. A function of
/// `s` alone.
pub uninterp spec fn json_commands_field(s: Seq<char>) -> Option<Seq<Seq<char>>>;

/// Relies on serde_json's `from_str` and `Value::{get, as_array, as_str}`:
/// parses `s` as a JSON object and reads the strings of its `commands`
/// array; the result depends on `s` alone.
#[verifier::external_body]
fn parse_commands_object(s: &str) -> (r: Option<Vec<String>>)
    ensures
        match r {
            Some(v) => json_commands_field(s@) == Some(v.deep_view()),
            None => json_commands_field(s@) is None,
        },
{
    let value: serde_json::Value = serde_json::from_str(s).ok()?;
    let arr = value.get("commands")?.as_array()?;
    let mut out: Vec<String> = Vec::with_capacity(arr.len());
    for item in arr {
        out.push(item.as_str()?.to_string());
    }
    Some(out)
}

/// What serde_json yields for `s` parsed as a bare JSON array of strings,
/// or `None` when `s` is not one. A function of `s` alone.
pub uninterp spec fn json_string_array(s: Seq<char>) -> Option<Seq<Seq<char>>>;

/// Relies on serde_json's `from_str::<Vec<String>>`: parses `s` as a bare
/// JSON array of strings; the result depends on `s` alone.
#[verifier::external_body]
fn parse_string_array(s: &str) -> (r: Option<Vec<String>>)
    ensures
        match r {
            Some(v) => json_string_array(s@) == Some(v.deep_view()),
            None => json_string_array(s@) is None,
        },
{
    serde_json::from_str::<Vec<String>>(s).ok()
}

/// Each command trimmed, empty ones dropped, order kept.
pub open spec fn clean_commands(cmds: Seq<Seq<char>>) -> Seq<Seq<char>>
    decreases cmds.len(),
{
    if cmds.len() == 0 {
        Seq::empty()
    } else {
        let rest = clean_commands(cmds.drop_first());
        if trim_spec(cmds.first()).len() > 0 {
            seq![trim_spec(cmds.first())] + rest
        } else {
            rest
        }
    }
}

fn clean_commands_exec(cmds: &Vec<String>) -> (r: Vec<String>)
    ensures
        r.deep_view() == clean_commands(cmds.deep_view()),
{
    let ghost full = cmds.deep_view();
    let mut out: Vec<String> = Vec::new();
    let mut i: usize = 0;
    proof {
        assert(out.deep_view() =~= Seq::<Seq<char>>::empty());
        assert(full.skip(0) =~= full);
        assert(out.deep_view() + clean_commands(full) =~= clean_commands(full));
    }
    while i < cmds.len()
        invariant
            0 <= i <= cmds.len(),
            full == cmds.deep_view(),
            full.len() == cmds.len(),
            clean_commands(full) == out.deep_view() + clean_commands(full.skip(i as int)),
        decreases cmds.len() - i,
    {
        let t = trim_to_string(cmds[i].as_str());
        proof {
            assert(full.skip(i as int).first() == full[i as int]);
            assert(full.skip(i as int).drop_first() =~= full.skip(i + 1));
            assert(cmds[i as int]@ == full[i as int]);
        }
        if t.unicode_len() > 0 {
            out.push(t);
            proof {
                assert(out.deep_view() =~= out.deep_view().subrange(0, out.len() - 1)
                    + seq![trim_spec(full[i as int])]);
                assert(out.deep_view() + clean_commands(full.skip(i + 1))
                    =~= clean_commands(full));
            }
        }
        i = i + 1;
    }
    proof {
        assert(full.skip(full.len() as int) =~= Seq::<Seq<char>>::empty());
        assert(out.deep_view() =~= clean_commands(full));
    }
    out
}

/// The markdown JSON fence stripped from an (already trimmed) reply:
/// a leading ```` ```json ```` or ```` ``` ```` is removed, then a
/// trailing ```` ``` ````, and the rest is trimmed again.
pub open spec fn strip_json_fence(t: Seq<char>) -> Seq<char> {
    if matches_at(t, backticks(), 0) {
        let body = if matches_at(t, seq!['`', '`', '`', 'j', 's', 'o', 'n'], 0) {
            t.skip(7)
        } else {
            t.skip(3)
        };
        let inner = if body.len() >= 3 && matches_at(body, backticks(), body.len() - 3) {
            body.take(body.len() - 3)
        } else {
            body
        };
        trim_spec(inner)
    } else {
        t
    }
}

fn strip_json_fence_exec(t: &str) -> (r: String)
    ensures
        r@ == strip_json_fence(t@),
{
    proof {
        reveal_strlit("```");
        reveal_strlit("```json");
        assert("```"@ =~= backticks());
        assert("```json"@ =~= seq!['`', '`', '`', 'j', 's', 'o', 'n']);
    }
    let n: usize = t.unicode_len();
    if !pattern_at(t, n, "```", 0) {
        return t.to_owned();
    }
    let start: usize = if pattern_at(t, n, "```json", 0) {
        7
    } else {
        3
    };
    let ghost body = t@.skip(start as int);
    let body_len: usize = n - start;
    let end: usize = if body_len >= 3 && pattern_at(t, n, "```", n - 3) && n - 3 >= start {
        n - 3
    } else {
        n
    };
    proof {
        if body_len >= 3 {
            assert(t@.subrange(n - 3, n as int) =~= body.subrange(
                body.len() - 3,
                body.len() as int,
            ));
        }
        let inner = if body.len() >= 3 && matches_at(body, backticks(), body.len() - 3) {
            body.take(body.len() - 3)
        } else {
            body
        };
        assert(t@.subrange(start as int, end as int) =~= inner);
    }
    trim_to_string(t.substring_char(start, end))
}

/// The index of the last occurrence of `c` in `s`.
pub open spec fn rfind_char(s: Seq<char>, c: char) -> Option<int>
    decreases s.len(),
{
    if s.len() == 0 {
        None
    } else if s.last() == c {
        Some(s.len() - 1)
    } else {
        rfind_char(s.drop_last(), c)
    }
}

pub(crate) fn rfind_char_in(s: &str, c: char) -> (r: Option<usize>)
    ensures
        match r {
            Some(i) => Some(i as int) == rfind_char(s@, c) && i < s@.len(),
            None => rfind_char(s@, c) is None,
        },
{
    let n: usize = s.unicode_len();
    let mut i: usize = n;
    proof {
        assert(s@.take(n as int) =~= s@);
    }
    while i > 0
        invariant
            0 <= i <= n,
            n == s@.len(),
            rfind_char(s@, c) == rfind_char(s@.take(i as int), c),
        decreases i,
    {
        let ghost prefix = s@.take(i as int);
        proof {
            assert(prefix.last() == s@[i - 1]);
            assert(prefix.drop_last() =~= s@.take(i - 1));
        }
        if s.get_char(i - 1) == c {
            return Some(i - 1);
        }
        i = i - 1;
    }
    proof {
        assert(s@.take(0) =~= Seq::<char>::empty());
    }
    None
}

/// The substring from the first `'{'` to the last `'}'`, both included,
/// when both exist in that order.
pub open spec fn brace_slice(j: Seq<char>) -> Option<Seq<char>> {
    match find_from(j, seq!['{'], 0) {
        Some(a) => match rfind_char(j, '}') {
            Some(b) => if a <= b {
                Some(j.subrange(a, b + 1))
            } else {
                None
            },
            None => None,
        },
        None => None,
    }
}

/// The third fallback of `extract_commands`: the object shape parsed out
/// of the first-`{`-to-last-`}` slice, cleaned; `None` when that yields
/// no commands.
pub open spec fn brace_fallback(j: Seq<char>) -> Option<Seq<Seq<char>>> {
    match brace_slice(j) {
        Some(slice) => match json_commands_field(slice) {
            Some(cmds) => if cmds.len() > 0 && clean_commands(cmds).len() > 0 {
                Some(clean_commands(cmds))
            } else {
                None
            },
            None => None,
        },
        None => None,
    }
}

/// What `extract_commands` returns, over the trimmed reply `t` and the
/// fence-stripped candidate `j = strip_json_fence(t)`: the object shape,
/// then a bare string array, then the brace slice, then single-command
/// extraction; an attempt whose cleaned command list is empty falls
/// through to the next; when everything fails, an error naming the raw
/// reply.
pub open spec fn extract_commands_spec(s: Seq<char>) -> Result<Seq<Seq<char>>, Seq<char>> {
    let t = trim_spec(s);
    let j = strip_json_fence(t);
    match json_commands_field(j) {
        Some(cmds) => if cmds.len() == 0 {
            Err("AI returned empty commands array"@)
        } else if clean_commands(cmds).len() == 0 {
            Err("All commands in AI response were empty"@)
        } else {
            Ok(clean_commands(cmds))
        },
        None => match json_string_array(j) {
            Some(arr) => if arr.len() == 0 {
                Err("AI returned empty array"@)
            } else if clean_commands(arr).len() > 0 {
                Ok(clean_commands(arr))
            } else {
                extract_commands_late(t, j)
            },
            None => match brace_fallback(j) {
                Some(cmds) => Ok(cmds),
                None => extract_commands_late(t, j),
            },
        },
    }
}

/// The last fallback: single-command extraction from the trimmed reply,
/// or the parse-failure error carrying it.
pub open spec fn extract_commands_late(t: Seq<char>, j: Seq<char>) -> Result<
    Seq<Seq<char>>,
    Seq<char>,
> {
    if extract_command_spec(t).len() > 0 {
        Ok(seq![extract_command_spec(t)])
    } else {
        Err("Failed to parse AI response as JSON. Response: "@ + t)
    }
}

fn extract_commands_fallback(t: &str) -> (r: Result<Vec<String>, String>)
    ensures
        match r {
            Ok(v) => extract_commands_late(t@, strip_json_fence(t@)) == Ok::<_, Seq<char>>(
                v.deep_view(),
            ) && v@.len() > 0,
            Err(e) => extract_commands_late(t@, strip_json_fence(t@)) == Err::<Seq<Seq<char>>, _>(
                e@,
            ),
        },
{
    let single = extract_command(t);
    if single.unicode_len() > 0 {
        let mut v: Vec<String> = Vec::new();
        v.push(single);
        proof {
            assert(v.deep_view() =~= seq![extract_command_spec(t@)]);
        }
        Ok(v)
    } else {
        let mut msg = String::new();
        msg.append("Failed to parse AI response as JSON. Response: ");
        msg.append(t);
        Err(msg)
    }
}

/// Extracts the command alternatives from a model reply expected to hold
/// `{"commands": [...]}`, degrading through increasingly permissive
/// strategies; fails only when no strategy yields a non-empty command.
pub fn extract_commands(response: &str) -> (r: Result<Vec<String>, String>)
    ensures
        match r {
            Ok(v) => extract_commands_spec(response@) == Ok::<_, Seq<char>>(v.deep_view())
                && v@.len() > 0,
            Err(e) => extract_commands_spec(response@) == Err::<Seq<Seq<char>>, _>(e@),
        },
{
    let trimmed = trim_to_string(response);
    let json_str = strip_json_fence_exec(trimmed.as_str());
    match parse_commands_object(json_str.as_str()) {
        Some(cmds) => {
            if cmds.len() == 0 {
                return Err("AI returned empty commands array".to_owned());
            }
            let cleaned = clean_commands_exec(&cmds);
            if cleaned.len() == 0 {
                proof {
                    assert(clean_commands(cmds.deep_view()).len() == 0);
                }
                return Err("All commands in AI response were empty".to_owned());
            }
            proof {
                assert(cleaned@.len() == cleaned.deep_view().len());
            }
            Ok(cleaned)
        },
        None => {
            match parse_string_array(json_str.as_str()) {
                Some(arr) => {
                    if arr.len() == 0 {
                        return Err("AI returned empty array".to_owned());
                    }
                    let cleaned = clean_commands_exec(&arr);
                    if cleaned.len() > 0 {
                        proof {
                            assert(cleaned@.len() == cleaned.deep_view().len());
                        }
                        Ok(cleaned)
                    } else {
                        proof {
                            assert(clean_commands(arr.deep_view()).len() == 0);
                        }
                        extract_commands_fallback(trimmed.as_str())
                    }
                },
                None => {
                    let brace = brace_attempt(json_str.as_str());
                    match brace {
                        Some(cmds) => {
                            proof {
                                assert(cmds@.len() == cmds.deep_view().len());
                            }
                            Ok(cmds)
                        },
                        None => extract_commands_fallback(trimmed.as_str()),
                    }
                },
            }
        },
    }
}

/// The response parser is a pure function: two results of parsing the
/// same reply are the same. Repeated calls with identical input produce
/// identical output, single- and multi-command alike.
pub proof fn lemma_parser_deterministic(
    s: Seq<char>,
    single1: Seq<char>,
    single2: Seq<char>,
    multi1: Result<Seq<Seq<char>>, Seq<char>>,
    multi2: Result<Seq<Seq<char>>, Seq<char>>,
)
    requires
        single1 == extract_command_spec(s),
        single2 == extract_command_spec(s),
        multi1 == extract_commands_spec(s),
        multi2 == extract_commands_spec(s),
    ensures
        single1 == single2,
        multi1 == multi2,
{
}

fn brace_attempt(j: &str) -> (r: Option<Vec<String>>)
    ensures
        match r {
            Some(v) => brace_fallback(j@) == Some(v.deep_view()) && v@.len() > 0,
            None => brace_fallback(j@) is None,
        },
{
    proof {
        reveal_strlit("{");
        assert("{"@ =~= seq!['{']);
    }
    let n: usize = j.unicode_len();
    let a = match find_str(j, "{", 0) {
        Some(a) => a,
        None => {
            return None;
        },
    };
    let b = match rfind_char_in(j, '}') {
        Some(b) => b,
        None => {
            return None;
        },
    };
    if a > b {
        return None;
    }
    proof {
        lemma_find_from_some(j@, seq!['{'], 0);
    }
    let slice = j.substring_char(a, b + 1);
    match parse_commands_object(slice) {
        Some(cmds) => {
            if cmds.len() == 0 {
                return None;
            }
            let cleaned = clean_commands_exec(&cmds);
            if cleaned.len() == 0 {
                proof {
                    assert(clean_commands(cmds.deep_view()).len() == 0);
                }
                return None;
            }
            proof {
                assert(cleaned@.len() == cleaned.deep_view().len());
            }
            Some(cleaned)
        },
        None => None,
    }
}

} // verus!

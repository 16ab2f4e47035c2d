//! Merging configuration from its sources, in precedence order: defaults,
//! then configuration files, then environment variables, then command-line
//! flags. A field set by a higher-precedence source wins; one left at its
//! default defers to the source below.

use vstd::prelude::*;
use crate::cli::Cli;
use crate::config_file::{
    ContextConfig, FileConfig, ProviderConfig, ProviderSpecificConfig, SafetyConfig, UiConfig,
    is_default_file_config,
};
use crate::envsnap::{env_get, env_lookup};
use crate::provider::clone_opt_string;
use crate::strutil::{
    ascii_lowercase, lower_seq, matches_at, parse_bool, parse_bool_spec, parse_u32,
    parse_u32_spec, pattern_at, split_commas_clean, split_commas_trimmed, str_eq,
};

verus! {

pub(crate) fn clone_psc(p: &ProviderSpecificConfig) -> (c: ProviderSpecificConfig)
    ensures
        c == *p,
{
    ProviderSpecificConfig {
        api_key: clone_opt_string(&p.api_key),
        api_key_env: clone_opt_string(&p.api_key_env),
        model: clone_opt_string(&p.model),
        endpoint: clone_opt_string(&p.endpoint),
    }
}

/// The position of the first entry under `key`, at or after `i`.
pub open spec fn first_key_index(
    entries: Seq<(String, ProviderSpecificConfig)>,
    key: Seq<char>,
    i: int,
) -> Option<int>
    decreases entries.len() - i,
{
    if i < 0 || i >= entries.len() {
        None
    } else if entries[i].0@ == key {
        Some(i)
    } else {
        first_key_index(entries, key, i + 1)
    }
}

/// `entries` with the first entry under `key`'s name replaced by `val`,
/// or `(key, val)` appended when no entry has that name.
pub open spec fn upsert_provider(
    entries: Seq<(String, ProviderSpecificConfig)>,
    key: String,
    val: ProviderSpecificConfig,
) -> Seq<(String, ProviderSpecificConfig)> {
    match first_key_index(entries, key@, 0) {
        Some(j) => entries.update(j, (entries[j].0, val)),
        None => entries.push((key, val)),
    }
}

fn upsert_provider_exec(
    entries: &Vec<(String, ProviderSpecificConfig)>,
    key: &String,
    val: &ProviderSpecificConfig,
) -> (r: Vec<(String, ProviderSpecificConfig)>)
    ensures
        r@ == upsert_provider(entries@, *key, *val),
{
    let ghost full = entries@;
    let mut out: Vec<(String, ProviderSpecificConfig)> = Vec::new();
    let mut replaced = false;
    let mut i: usize = 0;
    while i < entries.len()
        invariant
            0 <= i <= full.len(),
            full == entries@,
            replaced ==> (first_key_index(full, key@, 0) matches Some(j) && 0 <= j < i && out@
                =~= full.update(j, (full[j].0, *val)).take(i as int)),
            !replaced ==> {
                &&& first_key_index(full, key@, 0) == first_key_index(full, key@, i as int)
                &&& out@ =~= full.take(i as int)
            },
        decreases full.len() - i,
    {
        if !replaced && str_eq(entries[i].0.as_str(), key.as_str()) {
            proof {
                assert(first_key_index(full, key@, i as int) == Some(i as int));
            }
            out.push((entries[i].0.clone(), clone_psc(val)));
            replaced = true;
            proof {
                let j = i as int;
                assert(out@ =~= full.update(j, (full[j].0, *val)).take(j + 1));
            }
        } else {
            out.push((entries[i].0.clone(), clone_psc(&entries[i].1)));
            proof {
                if replaced {
                    let j = first_key_index(full, key@, 0)->0;
                    assert(out@ =~= full.update(j, (full[j].0, *val)).take(i + 1));
                } else {
                    assert(out@ =~= full.take(i + 1));
                }
            }
        }
        i = i + 1;
    }
    if !replaced {
        proof {
            assert(full.take(full.len() as int) =~= full);
        }
        out.push((key.clone(), clone_psc(val)));
        proof {
            assert(out@ =~= full.push((*key, *val)));
        }
    } else {
        proof {
            let j = first_key_index(full, key@, 0)->0;
            assert(full.update(j, (full[j].0, *val)).take(full.len() as int) =~= full.update(
                j,
                (full[j].0, *val),
            ));
        }
    }
    out
}

/// The provider sections after an override's sections are folded in, each
/// replacing or extending by name, in the override's order.
pub open spec fn providers_after_merge(
    base: Seq<(String, ProviderSpecificConfig)>,
    over: Seq<(String, ProviderSpecificConfig)>,
) -> Seq<(String, ProviderSpecificConfig)>
    decreases over.len(),
{
    if over.len() == 0 {
        base
    } else {
        providers_after_merge(
            upsert_provider(base, over.first().0, over.first().1),
            over.drop_first(),
        )
    }
}

/// The merged provider selection: an override differing from the default
/// wins, else the base stands.
pub open spec fn merge_provider_config_spec(
    base: ProviderConfig,
    over: ProviderConfig,
) -> ProviderConfig {
    ProviderConfig {
        default: if over.default@ != "openrouter"@ {
            over.default
        } else {
            base.default
        },
        fallback: if over.fallback@.len() > 0 {
            over.fallback
        } else {
            base.fallback
        },
    }
}

/// Merges two provider selections, the override winning on any field it
/// sets away from the default.
pub fn merge_provider_config(base: ProviderConfig, over: ProviderConfig) -> (r: ProviderConfig)
    ensures
        r == merge_provider_config_spec(base, over),
{
    let use_over_default = !str_eq(over.default.as_str(), "openrouter");
    ProviderConfig {
        default: if use_over_default {
            over.default
        } else {
            base.default
        },
        fallback: if over.fallback.len() > 0 {
            over.fallback
        } else {
            base.fallback
        },
    }
}

/// The merged context limits: an override differing from the default
/// wins, else the base stands.
pub open spec fn merge_context_config_spec(
    base: ContextConfig,
    over: ContextConfig,
) -> ContextConfig {
    ContextConfig {
        max_files: if over.max_files != 10 {
            over.max_files
        } else {
            base.max_files
        },
        max_history: if over.max_history != 3 {
            over.max_history
        } else {
            base.max_history
        },
        redact_paths: if over.redact_paths != false {
            over.redact_paths
        } else {
            base.redact_paths
        },
        redact_username: if over.redact_username != false {
            over.redact_username
        } else {
            base.redact_username
        },
    }
}

/// Merges two context-limit sections, the override winning on any field
/// it sets away from the default.
pub fn merge_context_config(base: ContextConfig, over: ContextConfig) -> (r: ContextConfig)
    ensures
        r == merge_context_config_spec(base, over),
{
    ContextConfig {
        max_files: if over.max_files != 10 {
            over.max_files
        } else {
            base.max_files
        },
        max_history: if over.max_history != 3 {
            over.max_history
        } else {
            base.max_history
        },
        redact_paths: if over.redact_paths {
            true
        } else {
            base.redact_paths
        },
        redact_username: if over.redact_username {
            true
        } else {
            base.redact_username
        },
    }
}

/// The merged safety settings: overriding patterns win when present, and
/// confirmation switched off in the override wins.
pub open spec fn merge_safety_config_spec(base: SafetyConfig, over: SafetyConfig) -> SafetyConfig {
    SafetyConfig {
        dangerous_patterns: if over.dangerous_patterns@.len() > 0 {
            over.dangerous_patterns
        } else {
            base.dangerous_patterns
        },
        confirm_dangerous: if over.confirm_dangerous != true {
            over.confirm_dangerous
        } else {
            base.confirm_dangerous
        },
    }
}

/// Merges two safety sections, the override winning on any field it sets
/// away from the default.
pub fn merge_safety_config(base: SafetyConfig, over: SafetyConfig) -> (r: SafetyConfig)
    ensures
        r == merge_safety_config_spec(base, over),
{
    SafetyConfig {
        dangerous_patterns: if over.dangerous_patterns.len() > 0 {
            over.dangerous_patterns
        } else {
            base.dangerous_patterns
        },
        confirm_dangerous: if !over.confirm_dangerous {
            false
        } else {
            base.confirm_dangerous
        },
    }
}

/// The merged presentation settings: a color set away from auto wins, and
/// the override's log file wins when present.
pub open spec fn merge_ui_config_spec(base: UiConfig, over: UiConfig) -> UiConfig {
    UiConfig {
        color: if over.color@ != "auto"@ {
            over.color
        } else {
            base.color
        },
        debug_log_file: match over.debug_log_file {
            Some(f) => Some(f),
            None => base.debug_log_file,
        },
    }
}

/// Merges two presentation sections, the override winning on any field it
/// sets away from the default.
pub fn merge_ui_config(base: UiConfig, over: UiConfig) -> (r: UiConfig)
    ensures
        r == merge_ui_config_spec(base, over),
{
    let use_over_color = !str_eq(over.color.as_str(), "auto");
    UiConfig {
        color: if use_over_color {
            over.color
        } else {
            base.color
        },
        debug_log_file: match over.debug_log_file {
            Some(f) => Some(f),
            None => base.debug_log_file,
        },
    }
}

/// `r` is the deep merge of `over` over `base`: each section merged, and
/// the override's provider sections folded into the base's by name.
pub open spec fn file_merged(base: FileConfig, over: FileConfig, r: FileConfig) -> bool {
    &&& r.provider == merge_provider_config_spec(base.provider, over.provider)
    &&& r.context == merge_context_config_spec(base.context, over.context)
    &&& r.safety == merge_safety_config_spec(base.safety, over.safety)
    &&& r.ui == merge_ui_config_spec(base.ui, over.ui)
    &&& r.providers@ == providers_after_merge(base.providers@, over.providers@)
}

/// Deep-merges a whole configuration over a base, section by section.
pub fn merge_file_configs(base: FileConfig, over: FileConfig) -> (r: FileConfig)
    ensures
        file_merged(base, over, r),
{
    let ghost base_entries = base.providers@;
    let ghost over_entries = over.providers@;
    let mut providers = base.providers;
    let mut i: usize = 0;
    proof {
        assert(over_entries.skip(0) =~= over_entries);
    }
    while i < over.providers.len()
        invariant
            0 <= i <= over_entries.len(),
            over_entries == over.providers@,
            providers_after_merge(base_entries, over_entries) == providers_after_merge(
                providers@,
                over_entries.skip(i as int),
            ),
        decreases over_entries.len() - i,
    {
        proof {
            assert(over_entries.skip(i as int).first() == over_entries[i as int]);
            assert(over_entries.skip(i as int).drop_first() =~= over_entries.skip(i + 1));
        }
        providers = upsert_provider_exec(&providers, &over.providers[i].0, &over.providers[i].1);
        i = i + 1;
    }
    proof {
        assert(over_entries.skip(over_entries.len() as int) =~= Seq::<(
            String,
            ProviderSpecificConfig,
        )>::empty());
    }
    FileConfig {
        provider: merge_provider_config(base.provider, over.provider),
        context: merge_context_config(base.context, over.context),
        safety: merge_safety_config(base.safety, over.safety),
        ui: merge_ui_config(base.ui, over.ui),
        providers,
    }
}

/// `r` is `base` with the recognised environment keys applied: provider
/// default and fallback, context limits and redaction, safety patterns
/// and confirmation, and the color mode. Lists are comma-split, trimmed
/// and cleaned; numbers and booleans that do not parse fall back.
pub open spec fn env_merged(base: FileConfig, env: Seq<(String, String)>, r: FileConfig) -> bool {
    &&& r.provider.default@ == (match env_lookup(env, "provider_default"@) {
        Some(v) => v,
        None => base.provider.default@,
    })
    &&& (match env_lookup(env, "provider_fallback"@) {
        Some(v) => r.provider.fallback.deep_view() == split_commas_clean(v),
        None => r.provider.fallback == base.provider.fallback,
    })
    &&& r.context.max_files == (match env_lookup(env, "context_max_files"@) {
        Some(v) => match parse_u32_spec(v) {
            Some(x) => x,
            None => base.context.max_files,
        },
        None => base.context.max_files,
    })
    &&& r.context.max_history == (match env_lookup(env, "context_max_history"@) {
        Some(v) => match parse_u32_spec(v) {
            Some(x) => x,
            None => base.context.max_history,
        },
        None => base.context.max_history,
    })
    &&& r.context.redact_paths == (match env_lookup(env, "context_redact_paths"@) {
        Some(v) => match parse_bool_spec(v) {
            Some(b) => b,
            None => false,
        },
        None => base.context.redact_paths,
    })
    &&& r.context.redact_username == (match env_lookup(env, "context_redact_username"@) {
        Some(v) => match parse_bool_spec(v) {
            Some(b) => b,
            None => false,
        },
        None => base.context.redact_username,
    })
    &&& (match env_lookup(env, "safety_dangerous_patterns"@) {
        Some(v) => r.safety.dangerous_patterns.deep_view() == split_commas_clean(v),
        None => r.safety.dangerous_patterns == base.safety.dangerous_patterns,
    })
    &&& r.safety.confirm_dangerous == (match env_lookup(env, "safety_confirm_dangerous"@) {
        Some(v) => match parse_bool_spec(v) {
            Some(b) => b,
            None => true,
        },
        None => base.safety.confirm_dangerous,
    })
    &&& r.ui.color@ == (match env_lookup(env, "ui_color"@) {
        Some(v) => v,
        None => base.ui.color@,
    })
    &&& r.ui.debug_log_file == base.ui.debug_log_file
    &&& r.providers == base.providers
}

/// Applies the recognised environment variables over `base`. Keys are the
/// lowercased remainders after the environment prefix, as
/// `extract_env_config` produces them.
pub fn merge_env_config(base: FileConfig, env: &Vec<(String, String)>) -> (r: FileConfig)
    ensures
        env_merged(base, env@, r),
{
    let mut merged = base;
    match env_get(env, "provider_default") {
        Some(v) => {
            merged.provider.default = v;
        },
        None => {},
    }
    match env_get(env, "provider_fallback") {
        Some(v) => {
            merged.provider.fallback = split_commas_trimmed(v.as_str());
        },
        None => {},
    }
    match env_get(env, "context_max_files") {
        Some(v) => {
            match parse_u32(v.as_str()) {
                Some(x) => {
                    merged.context.max_files = x;
                },
                None => {},
            }
        },
        None => {},
    }
    match env_get(env, "context_max_history") {
        Some(v) => {
            match parse_u32(v.as_str()) {
                Some(x) => {
                    merged.context.max_history = x;
                },
                None => {},
            }
        },
        None => {},
    }
    match env_get(env, "context_redact_paths") {
        Some(v) => {
            merged.context.redact_paths = match parse_bool(v.as_str()) {
                Some(b) => b,
                None => false,
            };
        },
        None => {},
    }
    match env_get(env, "context_redact_username") {
        Some(v) => {
            merged.context.redact_username = match parse_bool(v.as_str()) {
                Some(b) => b,
                None => false,
            };
        },
        None => {},
    }
    match env_get(env, "safety_dangerous_patterns") {
        Some(v) => {
            merged.safety.dangerous_patterns = split_commas_trimmed(v.as_str());
        },
        None => {},
    }
    match env_get(env, "safety_confirm_dangerous") {
        Some(v) => {
            merged.safety.confirm_dangerous = match parse_bool(v.as_str()) {
                Some(b) => b,
                None => true,
            };
        },
        None => {},
    }
    match env_get(env, "ui_color") {
        Some(v) => {
            merged.ui.color = v;
        },
        None => {},
    }
    merged
}

/// `r` is `base` with the command-line flags applied: a provider flag
/// replaces the default provider, and a model flag sets the model of the
/// chosen provider's section, creating the section when it is absent.
pub open spec fn cli_merged(base: FileConfig, cli: Cli, r: FileConfig) -> bool {
    let default_after = match cli.provider {
        Some(p) => p,
        None => base.provider.default,
    };
    &&& r.provider.default == default_after
    &&& r.provider.fallback == base.provider.fallback
    &&& r.context == base.context
    &&& r.safety == base.safety
    &&& r.ui == base.ui
    &&& match cli.model {
        Some(m) => {
            let section = match first_key_index(base.providers@, default_after@, 0) {
                Some(j) => ProviderSpecificConfig {
                    model: Some(m),
                    ..base.providers@[j].1
                },
                None => ProviderSpecificConfig {
                    api_key: None,
                    api_key_env: None,
                    model: Some(m),
                    endpoint: None,
                },
            };
            r.providers@ == upsert_provider(base.providers@, default_after, section)
        },
        None => r.providers == base.providers,
    }
}

/// Applies the command-line flags (provider and model overrides) over a
/// merged configuration; the command line has the highest precedence.
pub fn merge_cli_config(base: FileConfig, cli: &Cli) -> (r: FileConfig)
    ensures
        cli_merged(base, *cli, r),
{
    let mut merged = base;
    match &cli.provider {
        Some(p) => {
            merged.provider.default = p.clone();
        },
        None => {},
    }
    match &cli.model {
        Some(m) => {
            let name: String = match &cli.provider {
                Some(p) => p.clone(),
                None => merged.provider.default.clone(),
            };
            let existing = providers_index(&merged.providers, name.as_str());
            let section: ProviderSpecificConfig = match existing {
                Some(j) => {
                    let s = &merged.providers[j].1;
                    ProviderSpecificConfig {
                        api_key: clone_opt_string(&s.api_key),
                        api_key_env: clone_opt_string(&s.api_key_env),
                        model: Some(m.clone()),
                        endpoint: clone_opt_string(&s.endpoint),
                    }
                },
                None => ProviderSpecificConfig {
                    api_key: None,
                    api_key_env: None,
                    model: Some(m.clone()),
                    endpoint: None,
                },
            };
            merged.providers = upsert_provider_exec(&merged.providers, &name, &section);
        },
        None => {},
    }
    merged
}

fn providers_index(entries: &Vec<(String, ProviderSpecificConfig)>, key: &str) -> (r: Option<
    usize,
>)
    ensures
        match r {
            Some(j) => first_key_index(entries@, key@, 0) == Some(j as int) && j < entries@.len(),
            None => first_key_index(entries@, key@, 0) is None,
        },
{
    let mut i: usize = 0;
    while i < entries.len()
        invariant
            0 <= i <= entries@.len(),
            first_key_index(entries@, key@, 0) == first_key_index(entries@, key@, i as int),
        decreases entries@.len() - i,
    {
        if str_eq(entries[i].0.as_str(), key) {
            return Some(i);
        }
        i = i + 1;
    }
    None
}

/// The view of an environment pair list.
pub open spec fn pairs_view(s: Seq<(String, String)>) -> Seq<(Seq<char>, Seq<char>)> {
    s.map_values(|p: (String, String)| (p.0@, p.1@))
}

/// The environment prefix marking a configuration variable.
pub open spec fn env_prefix() -> Seq<char> {
    seq!['C', 'L', 'A', 'I', '_']
}

/// The configuration keys among raw environment pairs: the pairs whose
/// name carries the prefix, with the remainder of the name lowercased.
pub open spec fn extract_env_spec(vars: Seq<(Seq<char>, Seq<char>)>) -> Seq<(Seq<char>, Seq<char>)>
    decreases vars.len(),
{
    if vars.len() == 0 {
        Seq::empty()
    } else {
        let rest = extract_env_spec(vars.drop_first());
        let head = vars.first();
        if matches_at(head.0, env_prefix(), 0) {
            seq![(lower_seq(head.0.skip(5)), head.1)] + rest
        } else {
            rest
        }
    }
}

/// Picks the configuration variables out of raw environment pairs: those
/// with the configuration prefix, under the lowercased remainder of their
/// name.
pub fn extract_env_config(vars: &Vec<(String, String)>) -> (r: Vec<(String, String)>)
    ensures
        pairs_view(r@) == extract_env_spec(pairs_view(vars@)),
{
    let mut out: Vec<(String, String)> = Vec::new();
    let mut i: usize = 0;
    proof {
        assert(pairs_view(vars@).skip(0) =~= pairs_view(vars@));
        assert(pairs_view(out@) + extract_env_spec(pairs_view(vars@)) =~= extract_env_spec(
            pairs_view(vars@),
        ));
    }
    while i < vars.len()
        invariant
            0 <= i <= vars@.len(),
            extract_env_spec(pairs_view(vars@)) == pairs_view(out@) + extract_env_spec(
                pairs_view(vars@).skip(i as int),
            ),
        decreases vars@.len() - i,
    {
        let ghost rem = pairs_view(vars@).skip(i as int);
        proof {
            reveal_strlit("CLAI_");
            assert("CLAI_"@ =~= env_prefix());
            assert(rem.first() == (vars@[i as int].0@, vars@[i as int].1@));
            assert(rem.drop_first() =~= pairs_view(vars@).skip(i + 1));
        }
        let name = &vars[i].0;
        let n: usize = name.as_str().unicode_len();
        if pattern_at(name.as_str(), n, "CLAI_", 0) {
            let stripped = name.as_str().substring_char(5, n);
            let key = ascii_lowercase(stripped);
            out.push((key, vars[i].1.clone()));
            proof {
                assert(pairs_view(out@) =~= pairs_view(out@).take(out@.len() - 1) + seq![
                    (lower_seq(rem.first().0.skip(5)), rem.first().1),
                ]);
            }
        }
        i = i + 1;
    }
    proof {
        assert(pairs_view(vars@).skip(vars@.len() as int) =~= Seq::<(Seq<char>, Seq<char>)>::empty());
        assert(pairs_view(out@) + extract_env_spec(pairs_view(vars@).skip(vars@.len() as int))
            =~= pairs_view(out@));
    }
    out
}

/// Merges configuration from every source in precedence order: the
/// defaults, then the loaded configuration files (already merged into
/// one), then the recognised environment variables, then the command-line
/// flags.
pub fn merge_all_configs(cli: &Cli, files: FileConfig, env: &Vec<(String, String)>) -> (r:
    FileConfig)
    ensures
        exists|defaults: FileConfig, from_files: FileConfig, with_env: FileConfig|
            {
                &&& is_default_file_config(defaults)
                &&& file_merged(defaults, files, from_files)
                &&& env_merged(from_files, env@, with_env)
                &&& cli_merged(with_env, *cli, r)
            },
{
    let defaults = FileConfig::default();
    let ghost d = defaults;
    let ghost f_in = files;
    let merged_files = merge_file_configs(defaults, files);
    let ghost mf = merged_files;
    let with_env = merge_env_config(merged_files, env);
    let ghost w = with_env;
    let r = merge_cli_config(with_env, cli);
    proof {
        assert(is_default_file_config(d) && file_merged(d, f_in, mf) && env_merged(mf, env@, w)
            && cli_merged(w, *cli, r));
    }
    r
}

} // verus!

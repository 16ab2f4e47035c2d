//! The provider chain: an ordered list of provider names tried in
//! sequence, with lazy initialization decided from configuration and the
//! fallback run stated over per-provider outcomes.

use vstd::prelude::*;
use crate::chat::ChatResponse;
use crate::config_file::{FileConfig, ProviderSpecificConfig};
use crate::envsnap::{env_get, env_lookup};
use crate::provider::{clone_opt_string, clone_response, ProviderError};
use crate::strutil::{find_from, find_str, lemma_find_from_some, str_eq};

verus! {

/// The ordered provider chain: the default provider first, then the
/// configured fallbacks, duplicates removed.
#[derive(Debug)]
pub struct ProviderChain {
    /// Provider names, in the order they are tried.
    pub providers: Vec<String>,
    /// The configuration the providers are initialized from.
    pub config: FileConfig,
}

/// `name` occurs in `names`.
pub open spec fn contains_name(names: Seq<Seq<char>>, name: Seq<char>) -> bool {
    exists|i: int| 0 <= i < names.len() && names[i] == name
}

fn contains_string(names: &Vec<String>, name: &str) -> (r: bool)
    ensures
        r == contains_name(names.deep_view(), name@),
{
    let mut i: usize = 0;
    while i < names.len()
        invariant
            0 <= i <= names@.len(),
            forall|j: int| 0 <= j < i ==> names.deep_view()[j] != name@,
        decreases names@.len() - i,
    {
        if str_eq(names[i].as_str(), name) {
            proof {
                assert(names.deep_view()[i as int] == name@);
            }
            return true;
        }
        i = i + 1;
    }
    false
}

/// The names of `names` from position `i` on that do not repeat an
/// earlier name, appended to `acc` in order: the first occurrence of each
/// name wins its place.
pub open spec fn dedup_names_from(
    names: Seq<Seq<char>>,
    i: int,
    acc: Seq<Seq<char>>,
) -> Seq<Seq<char>>
    decreases names.len() - i,
{
    if i < 0 || i >= names.len() {
        acc
    } else if contains_name(acc, names[i]) {
        dedup_names_from(names, i + 1, acc)
    } else {
        dedup_names_from(names, i + 1, acc.push(names[i]))
    }
}

/// `names` with every repeated name dropped, keeping first occurrences in
/// order.
pub open spec fn dedup_names(names: Seq<Seq<char>>) -> Seq<Seq<char>> {
    dedup_names_from(names, 0, Seq::empty())
}

impl ProviderChain {
    /// Builds the chain from configuration: the default provider first,
    /// then the configured fallbacks in order, with the default and any
    /// repeated name removed.
    pub fn new(config: FileConfig) -> (r: ProviderChain)
        ensures
            r.config == config,
            r.providers.deep_view() == dedup_names(
                seq![config.provider.default@] + config.provider.fallback.deep_view(),
            ),
    {
        let ghost full = seq![config.provider.default@] + config.provider.fallback.deep_view();
        let mut providers: Vec<String> = Vec::new();
        providers.push(config.provider.default.clone());
        proof {
            assert(full[0] == config.provider.default@);
            assert(providers.deep_view() =~= Seq::<Seq<char>>::empty().push(full[0]));
            assert(!contains_name(Seq::empty(), full[0]));
            assert(dedup_names(full) == dedup_names_from(full, 1, providers.deep_view()));
        }
        let mut i: usize = 0;
        while i < config.provider.fallback.len()
            invariant
                0 <= i <= config.provider.fallback@.len(),
                full == seq![config.provider.default@] + config.provider.fallback.deep_view(),
                dedup_names(full) == dedup_names_from(full, i + 1, providers.deep_view()),
            decreases config.provider.fallback@.len() - i,
        {
            let name = &config.provider.fallback[i];
            proof {
                assert(full[i + 1] == config.provider.fallback.deep_view()[i as int]);
                assert(name@ == full[i + 1]);
            }
            if !contains_string(&providers, name.as_str()) {
                let ghost prev = providers.deep_view();
                providers.push(name.clone());
                proof {
                    assert(providers.deep_view() =~= prev.push(full[i + 1]));
                }
            }
            i = i + 1;
        }
        proof {
            assert(full.len() == config.provider.fallback@.len() + 1);
        }
        ProviderChain { providers, config }
    }

    /// The provider names in fallback order.
    pub fn providers(&self) -> (r: &Vec<String>)
        ensures
            r == &self.providers,
    {
        &self.providers
    }

    /// Splits a model string on its first `/` into provider and model; an
    /// unscoped string belongs to the default (first) provider.
    pub fn parse_model(&self, model_str: &str) -> (r: (String, String))
        ensures
            match find_from(model_str@, seq!['/'], 0) {
                Some(i) => r.0@ == model_str@.subrange(0, i) && r.1@ == model_str@.subrange(
                    i + 1,
                    model_str@.len() as int,
                ),
                None => r.0@ == self.config.provider.default@ && r.1@ == model_str@,
            },
    {
        proof {
            reveal_strlit("/");
            assert("/"@ =~= seq!['/']);
        }
        let n: usize = model_str.unicode_len();
        match find_str(model_str, "/", 0) {
            Some(i) => {
                proof {
                    lemma_find_from_some(model_str@, seq!['/'], 0);
                }
                let provider = model_str.substring_char(0, i).to_owned();
                let model = model_str.substring_char(i + 1, n).to_owned();
                (provider, model)
            },
            None => (self.config.provider.default.clone(), model_str.to_owned()),
        }
    }

    /// Resolves a requested model for the chain's first provider: a
    /// model scoped to that provider (`provider/model`) is sent as the
    /// bare model name; one scoped to any other provider keeps its full
    /// `provider/model` form; an unscoped model passes through.
    pub fn resolve_request_model(&self, model: Option<&String>) -> (r: Option<String>)
        requires
            self.providers@.len() > 0,
        ensures
            match (model, r) {
                (Some(m), Some(rm)) => rm@ == scoped_model(self.providers.deep_view()[0], m@),
                (None, None) => true,
                _ => false,
            },
    {
        match model {
            Some(m) => {
                let (provider, model_name) = self.parse_model(m.as_str());
                proof {
                    reveal_strlit("/");
                    assert("/"@ =~= seq!['/']);
                }
                let n: usize = m.as_str().unicode_len();
                if str_eq(provider.as_str(), self.providers[0].as_str()) {
                    proof {
                        if find_from(m@, seq!['/'], 0) is None {
                            assert(scoped_model(self.providers.deep_view()[0], m@) == m@);
                            assert(model_name@ == m@);
                        }
                    }
                    Some(model_name)
                } else {
                    Some(m.clone())
                }
            },
            None => None,
        }
    }
}

/// What a requested model resolves to when `first` is the chain's first
/// provider: the bare model name when the request is scoped to `first`,
/// else the request unchanged.
pub open spec fn scoped_model(first: Seq<char>, m: Seq<char>) -> Seq<char> {
    match find_from(m, seq!['/'], 0) {
        Some(i) => if m.subrange(0, i) == first {
            m.subrange(i + 1, m.len() as int)
        } else {
            m
        },
        None => m,
    }
}

/// What initializing a named provider yields: the resolved credential and
/// the configured model.
#[derive(Debug, Clone, PartialEq, Eq)]
pub struct ProviderInit {
    /// The credential the provider authenticates with.
    pub api_key: String,
    /// The model configured for it, when one is.
    pub model: Option<String>,
}

/// The first value under `key` in the association list `entries`.
pub open spec fn providers_lookup(
    entries: Seq<(String, ProviderSpecificConfig)>,
    key: Seq<char>,
) -> Option<ProviderSpecificConfig>
    decreases entries.len(),
{
    if entries.len() == 0 {
        None
    } else if entries.first().0@ == key {
        Some(entries.first().1)
    } else {
        providers_lookup(entries.drop_first(), key)
    }
}

fn providers_get<'a>(
    entries: &'a Vec<(String, ProviderSpecificConfig)>,
    key: &str,
) -> (r: Option<&'a ProviderSpecificConfig>)
    ensures
        match r {
            Some(v) => providers_lookup(entries@, key@) == Some(*v),
            None => providers_lookup(entries@, key@) is None,
        },
{
    let mut i: usize = 0;
    proof {
        assert(entries@.skip(0) =~= entries@);
    }
    while i < entries.len()
        invariant
            0 <= i <= entries@.len(),
            providers_lookup(entries@, key@) == providers_lookup(entries@.skip(i as int), key@),
        decreases entries@.len() - i,
    {
        proof {
            assert(entries@.skip(i as int).first() == entries@[i as int]);
            assert(entries@.skip(i as int).drop_first() =~= entries@.skip(i + 1));
        }
        if str_eq(entries[i].0.as_str(), key) {
            return Some(&entries[i].1);
        }
        i = i + 1;
    }
    proof {
        assert(entries@.skip(entries@.len() as int) =~= Seq::<(
            String,
            ProviderSpecificConfig,
        )>::empty());
    }
    None
}

/// The credential the openrouter provider resolves under `config` and the
/// environment snapshot `env`: the configured key, else the value of the
/// configured key variable, else the value of `OPENROUTER_API_KEY`.
pub open spec fn openrouter_key(config: FileConfig, env: Seq<(String, String)>) -> Option<
    Seq<char>,
> {
    let section = providers_lookup(config.providers@, "openrouter"@);
    let from_config: Option<Seq<char>> = match section {
        Some(s) => match s.api_key {
            Some(k) => Some(k@),
            None => None,
        },
        None => None,
    };
    let from_named: Option<Seq<char>> = match section {
        Some(s) => match s.api_key_env {
            Some(var) => env_lookup(env, var@),
            None => None,
        },
        None => None,
    };
    match from_config {
        Some(k) => Some(k),
        None => match from_named {
            Some(k) => Some(k),
            None => env_lookup(env, "OPENROUTER_API_KEY"@),
        },
    }
}

/// Decides the initialization of the named provider from configuration
/// and an environment snapshot: only `openrouter` is known; its credential
/// comes from the configured key, the configured key variable, or
/// `OPENROUTER_API_KEY`, in that order, and a missing credential or an
/// unknown name is an error.
pub fn init_provider(config: &FileConfig, name: &str, env: &Vec<(String, String)>) -> (r: Result<
    ProviderInit,
    String,
>)
    ensures
        match r {
            Ok(init) => {
                &&& name@ == "openrouter"@
                &&& openrouter_key(*config, env@) == Some(init.api_key@)
                &&& match providers_lookup(config.providers@, "openrouter"@) {
                    Some(s) => match (s.model, init.model) {
                        (Some(m), Some(im)) => m@ == im@,
                        (None, None) => true,
                        _ => false,
                    },
                    None => init.model is None,
                }
            },
            Err(e) => {
                if name@ == "openrouter"@ {
                    openrouter_key(*config, env@) is None && e@ == "OpenRouter API key not found"@
                } else {
                    e@ == "Unknown provider: "@ + name@
                }
            },
        },
{
    if str_eq(name, "openrouter") {
        let section = providers_get(&config.providers, "openrouter");
        let from_config: Option<String> = match section {
            Some(s) => clone_opt_string(&s.api_key),
            None => None,
        };
        let key: Option<String> = match from_config {
            Some(k) => Some(k),
            None => {
                let from_named: Option<String> = match section {
                    Some(s) => match &s.api_key_env {
                        Some(var) => env_get(env, var.as_str()),
                        None => None,
                    },
                    None => None,
                };
                match from_named {
                    Some(k) => Some(k),
                    None => env_get(env, "OPENROUTER_API_KEY"),
                }
            },
        };
        match key {
            Some(api_key) => {
                let model: Option<String> = match section {
                    Some(s) => clone_opt_string(&s.model),
                    None => None,
                };
                Ok(ProviderInit { api_key, model })
            },
            None => Err("OpenRouter API key not found".to_owned()),
        }
    } else {
        let mut e = String::new();
        e.append("Unknown provider: ");
        e.append(name);
        Err(e)
    }
}

/// What one provider of the chain contributed when the chain ran: its
/// initialization failed, it was unavailable, its call failed, or its
/// call succeeded.
#[derive(Debug, Clone, PartialEq, Eq)]
pub enum ProviderOutcome {
    /// Initialization failed with the carried message.
    InitFailed(String),
    /// The provider reported itself unavailable.
    Unavailable,
    /// The call failed with the carried error.
    CallFailed(ProviderError),
    /// The call returned this response.
    Success(ChatResponse),
}

/// The error the chain records for provider `name` with outcome `o`
/// (`None` for a success).
pub open spec fn outcome_error(name: Seq<char>, o: ProviderOutcome) -> Option<Seq<char>> {
    match o {
        ProviderOutcome::InitFailed(msg) => Some(msg@),
        ProviderOutcome::Unavailable => Some("Provider "@ + name + " is not available"@),
        ProviderOutcome::CallFailed(e) => Some(
            "Provider "@ + name + " failed: "@ + e.message@,
        ),
        ProviderOutcome::Success(_) => None,
    }
}

/// The chain run from provider `i` on, with `last` the last recorded
/// error: the first success wins; when every provider fails, the last
/// recorded error is surfaced, or the generic message when none was.
pub open spec fn chain_run(
    names: Seq<Seq<char>>,
    outcomes: Seq<ProviderOutcome>,
    i: int,
    last: Option<Seq<char>>,
) -> Result<ChatResponse, Seq<char>>
    decreases names.len() - i,
{
    if i < 0 || i >= names.len() {
        match last {
            Some(e) => Err(e),
            None => Err("All providers in chain failed"@),
        }
    } else {
        match outcomes[i] {
            ProviderOutcome::Success(resp) => Ok(resp),
            o => chain_run(names, outcomes, i + 1, outcome_error(names[i], o)),
        }
    }
}

/// Runs the chain over the outcome each provider produced: providers are
/// tried strictly in order, the first success is returned at once, and
/// when all fail the last recorded error is surfaced (or the generic
/// message when nothing was recorded). `outcomes[i]` belongs to
/// `providers[i]`.
pub fn complete_from_outcomes(providers: &Vec<String>, outcomes: &Vec<ProviderOutcome>) -> (r:
    Result<ChatResponse, String>)
    requires
        outcomes@.len() == providers@.len(),
    ensures
        match r {
            Ok(resp) => chain_run(providers.deep_view(), outcomes@, 0, None) == Ok::<
                ChatResponse,
                Seq<char>,
            >(resp),
            Err(e) => chain_run(providers.deep_view(), outcomes@, 0, None) == Err::<
                ChatResponse,
                Seq<char>,
            >(e@),
        },
{
    let ghost names = providers.deep_view();
    let mut last: Option<String> = None;
    let mut i: usize = 0;
    while i < providers.len()
        invariant
            0 <= i <= providers@.len(),
            outcomes@.len() == providers@.len(),
            names == providers.deep_view(),
            chain_run(names, outcomes@, 0, None) == chain_run(
                names,
                outcomes@,
                i as int,
                match last {
                    Some(e) => Some(e@),
                    None => None,
                },
            ),
        decreases providers@.len() - i,
    {
        proof {
            assert(providers[i as int]@ == names[i as int]);
        }
        match &outcomes[i] {
            ProviderOutcome::Success(resp) => {
                return Ok(clone_response(resp));
            },
            ProviderOutcome::InitFailed(msg) => {
                last = Some(msg.clone());
            },
            ProviderOutcome::Unavailable => {
                let mut e = String::new();
                e.append("Provider ");
                e.append(providers[i].as_str());
                e.append(" is not available");
                last = Some(e);
            },
            ProviderOutcome::CallFailed(err) => {
                let mut e = String::new();
                e.append("Provider ");
                e.append(providers[i].as_str());
                e.append(" failed: ");
                e.append(err.message.as_str());
                last = Some(e);
            },
        }
        i = i + 1;
    }
    match last {
        Some(e) => Err(e),
        None => Err("All providers in chain failed".to_owned()),
    }
}

/// Wherever in the chain the one available-and-succeeding provider
/// stands, the chain returns exactly that provider's response.
pub proof fn lemma_chain_returns_unique_success(
    names: Seq<Seq<char>>,
    outcomes: Seq<ProviderOutcome>,
    s: int,
    resp: ChatResponse,
)
    requires
        outcomes.len() == names.len(),
        0 <= s < outcomes.len(),
        outcomes[s] == ProviderOutcome::Success(resp),
        forall|j: int| 0 <= j < outcomes.len() && j != s ==> !(outcomes[j] is Success),
    ensures
        chain_run(names, outcomes, 0, None) == Ok::<ChatResponse, Seq<char>>(resp),
{
    lemma_chain_reaches_success(names, outcomes, 0, s, resp, None);
}

proof fn lemma_chain_reaches_success(
    names: Seq<Seq<char>>,
    outcomes: Seq<ProviderOutcome>,
    i: int,
    s: int,
    resp: ChatResponse,
    last: Option<Seq<char>>,
)
    requires
        outcomes.len() == names.len(),
        0 <= i <= s < outcomes.len(),
        outcomes[s] == ProviderOutcome::Success(resp),
        forall|j: int| i <= j < s ==> !(outcomes[j] is Success),
    ensures
        chain_run(names, outcomes, i, last) == Ok::<ChatResponse, Seq<char>>(resp),
    decreases s - i,
{
    if i < s {
        lemma_chain_reaches_success(names, outcomes, i + 1, s, resp, outcome_error(
            names[i],
            outcomes[i],
        ));
    }
}

/// When every provider of the chain fails, the chain surfaces an error —
/// it never produces a response out of thin air.
pub proof fn lemma_chain_all_fail(names: Seq<Seq<char>>, outcomes: Seq<ProviderOutcome>)
    requires
        outcomes.len() == names.len(),
        forall|j: int| 0 <= j < outcomes.len() ==> !(outcomes[j] is Success),
    ensures
        chain_run(names, outcomes, 0, None) is Err,
{
    lemma_chain_all_fail_from(names, outcomes, 0, None);
}

proof fn lemma_chain_all_fail_from(
    names: Seq<Seq<char>>,
    outcomes: Seq<ProviderOutcome>,
    i: int,
    last: Option<Seq<char>>,
)
    requires
        outcomes.len() == names.len(),
        0 <= i,
        forall|j: int| i <= j < outcomes.len() ==> !(outcomes[j] is Success),
    ensures
        chain_run(names, outcomes, i, last) is Err,
    decreases names.len() - i,
{
    if i < names.len() {
        lemma_chain_all_fail_from(names, outcomes, i + 1, outcome_error(names[i], outcomes[i]));
    }
}

} // verus!

//! The resolved configuration file data: provider selection, context
//! gathering limits, safety settings and UI settings, with their
//! defaults. Provider-specific sections are kept as an association list
//! ordered by first appearance.

use vstd::prelude::*;

verus! {

/// Provider selection: the default provider and the fallback order.
#[derive(Debug, Clone, PartialEq, Eq)]
pub struct ProviderConfig {
    /// Name of the provider tried first.
    pub default: String,
    /// Further providers, in fallback order.
    pub fallback: Vec<String>,
}

/// Settings of one named provider.
#[derive(Debug, Clone, PartialEq, Eq)]
pub struct ProviderSpecificConfig {
    /// Credential stored directly in the configuration.
    pub api_key: Option<String>,
    /// Name of an environment variable holding the credential.
    pub api_key_env: Option<String>,
    /// Model this provider should use.
    pub model: Option<String>,
    /// Endpoint URL, for local providers.
    pub endpoint: Option<String>,
}

/// Limits on the context gathered for the prompt.
#[derive(Debug, Clone, Copy, PartialEq, Eq, Structural)]
pub struct ContextConfig {
    /// Most files listed from the working directory.
    pub max_files: u32,
    /// Most shell-history lines included.
    pub max_history: u32,
    /// Replace home-relative paths before sending them out.
    pub redact_paths: bool,
    /// Replace the user name before sending it out.
    pub redact_username: bool,
}

/// Safety settings for generated commands.
#[derive(Debug, Clone, PartialEq, Eq)]
pub struct SafetyConfig {
    /// Regular expressions marking a command as dangerous.
    pub dangerous_patterns: Vec<String>,
    /// Ask before acting on a dangerous command.
    pub confirm_dangerous: bool,
}

/// Presentation settings.
#[derive(Debug, Clone, PartialEq, Eq)]
pub struct UiConfig {
    /// Color mode: `auto`, `always` or `never`.
    pub color: String,
    /// Debug log file path; logging is off when absent.
    pub debug_log_file: Option<String>,
}

/// The whole resolved configuration file.
#[derive(Debug, Clone, PartialEq, Eq)]
pub struct FileConfig {
    /// Provider selection.
    pub provider: ProviderConfig,
    /// Context limits.
    pub context: ContextConfig,
    /// Safety settings.
    pub safety: SafetyConfig,
    /// Presentation settings.
    pub ui: UiConfig,
    /// Per-provider sections, keyed by provider name.
    pub providers: Vec<(String, ProviderSpecificConfig)>,
}

/// Name of the provider used when none is configured.
pub fn default_provider_default() -> (r: String)
    ensures
        r@ == "openrouter"@,
{
    "openrouter".to_owned()
}

/// Default bound on files listed from the working directory.
pub fn default_max_files() -> (r: u32)
    ensures
        r == 10,
{
    10
}

/// Default bound on shell-history lines.
pub fn default_max_history() -> (r: u32)
    ensures
        r == 3,
{
    3
}

/// The built-in dangerous-command patterns of the configuration file
/// defaults.
pub open spec fn default_file_patterns() -> Seq<Seq<char>> {
    seq!["rm -rf"@, "sudo rm"@, "mkfs"@, "dd if="@, "> /dev/"@, "format"@]
}

/// Default dangerous-command patterns used when the configuration names
/// none.
pub fn default_dangerous_patterns() -> (r: Vec<String>)
    ensures
        r.deep_view() == default_file_patterns(),
{
    let mut v: Vec<String> = Vec::new();
    v.push("rm -rf".to_owned());
    v.push("sudo rm".to_owned());
    v.push("mkfs".to_owned());
    v.push("dd if=".to_owned());
    v.push("> /dev/".to_owned());
    v.push("format".to_owned());
    proof {
        assert(v.deep_view() =~= default_file_patterns());
    }
    v
}

/// Dangerous commands are confirmed unless switched off.
pub fn default_confirm_dangerous() -> (r: bool)
    ensures
        r == true,
{
    true
}

/// Color is auto-detected unless configured.
pub fn default_color() -> (r: String)
    ensures
        r@ == "auto"@,
{
    "auto".to_owned()
}

/// `c` holds the default provider selection.
pub open spec fn is_default_provider_config(c: ProviderConfig) -> bool {
    c.default@ == "openrouter"@ && c.fallback@.len() == 0
}

/// `c` holds the default context limits.
pub open spec fn is_default_context_config(c: ContextConfig) -> bool {
    c.max_files == 10 && c.max_history == 3 && !c.redact_paths && !c.redact_username
}

/// `c` holds the default safety settings.
pub open spec fn is_default_safety_config(c: SafetyConfig) -> bool {
    c.dangerous_patterns.deep_view() == default_file_patterns() && c.confirm_dangerous
}

/// `c` holds the default presentation settings.
pub open spec fn is_default_ui_config(c: UiConfig) -> bool {
    c.color@ == "auto"@ && c.debug_log_file is None
}

/// `c` holds the whole default configuration.
pub open spec fn is_default_file_config(c: FileConfig) -> bool {
    is_default_provider_config(c.provider) && is_default_context_config(c.context)
        && is_default_safety_config(c.safety) && is_default_ui_config(c.ui)
        && c.providers@.len() == 0
}

impl Default for ProviderConfig {
    /// The default provider selection.
    fn default() -> (r: ProviderConfig)
        ensures
            is_default_provider_config(r),
    {
        ProviderConfig { default: default_provider_default(), fallback: Vec::new() }
    }
}

impl Default for ProviderSpecificConfig {
    /// An empty provider section.
    fn default() -> (r: ProviderSpecificConfig)
        ensures
            r.api_key is None,
            r.api_key_env is None,
            r.model is None,
            r.endpoint is None,
    {
        ProviderSpecificConfig { api_key: None, api_key_env: None, model: None, endpoint: None }
    }
}

impl Default for ContextConfig {
    /// The default context limits.
    fn default() -> (r: ContextConfig)
        ensures
            is_default_context_config(r),
    {
        ContextConfig {
            max_files: default_max_files(),
            max_history: default_max_history(),
            redact_paths: false,
            redact_username: false,
        }
    }
}

impl Default for SafetyConfig {
    /// The default safety settings.
    fn default() -> (r: SafetyConfig)
        ensures
            is_default_safety_config(r),
    {
        SafetyConfig {
            dangerous_patterns: default_dangerous_patterns(),
            confirm_dangerous: default_confirm_dangerous(),
        }
    }
}

impl Default for UiConfig {
    /// The default presentation settings.
    fn default() -> (r: UiConfig)
        ensures
            is_default_ui_config(r),
    {
        UiConfig { color: default_color(), debug_log_file: None }
    }
}

impl Default for FileConfig {
    /// The whole default configuration.
    fn default() -> (r: FileConfig)
        ensures
            is_default_file_config(r),
    {
        FileConfig {
            provider: ProviderConfig::default(),
            context: ContextConfig::default(),
            safety: SafetyConfig::default(),
            ui: UiConfig::default(),
            providers: Vec::new(),
        }
    }
}

/// The view of an optional string.
pub open spec fn opt_str_view(o: Option<String>) -> Option<Seq<char>> {
    match o {
        Some(s) => Some(s@),
        None => None,
    }
}

/// Two provider sections hold the same text in every field.
pub open spec fn psc_eqv(a: ProviderSpecificConfig, b: ProviderSpecificConfig) -> bool {
    &&& opt_str_view(a.api_key) == opt_str_view(b.api_key)
    &&& opt_str_view(a.api_key_env) == opt_str_view(b.api_key_env)
    &&& opt_str_view(a.model) == opt_str_view(b.model)
    &&& opt_str_view(a.endpoint) == opt_str_view(b.endpoint)
}

/// Two configurations hold the same content in every field.
pub open spec fn file_config_eqv(a: FileConfig, b: FileConfig) -> bool {
    &&& a.provider.default@ == b.provider.default@
    &&& a.provider.fallback.deep_view() == b.provider.fallback.deep_view()
    &&& a.context == b.context
    &&& a.safety.dangerous_patterns.deep_view() == b.safety.dangerous_patterns.deep_view()
    &&& a.safety.confirm_dangerous == b.safety.confirm_dangerous
    &&& a.ui.color@ == b.ui.color@
    &&& opt_str_view(a.ui.debug_log_file) == opt_str_view(b.ui.debug_log_file)
    &&& a.providers@.len() == b.providers@.len()
    &&& forall|i: int|
        0 <= i < a.providers@.len() ==> a.providers@[i].0@ == b.providers@[i].0@ && psc_eqv(
            a.providers@[i].1,
            b.providers@[i].1,
        )
}

impl FileConfig {
    /// A content-wise copy of the configuration.
    pub fn duplicate(&self) -> (r: FileConfig)
        ensures
            file_config_eqv(r, *self),
    {
        broadcast use vstd::std_specs::vec::vec_clone_deep_view_proof;

        let mut providers: Vec<(String, ProviderSpecificConfig)> = Vec::new();
        let mut i: usize = 0;
        while i < self.providers.len()
            invariant
                0 <= i <= self.providers@.len(),
                providers@.len() == i,
                forall|j: int|
                    0 <= j < i ==> providers@[j].0@ == self.providers@[j].0@ && psc_eqv(
                        providers@[j].1,
                        self.providers@[j].1,
                    ),
            decreases self.providers@.len() - i,
        {
            let s = &self.providers[i].1;
            let copied = ProviderSpecificConfig {
                api_key: crate::provider::clone_opt_string(&s.api_key),
                api_key_env: crate::provider::clone_opt_string(&s.api_key_env),
                model: crate::provider::clone_opt_string(&s.model),
                endpoint: crate::provider::clone_opt_string(&s.endpoint),
            };
            providers.push((self.providers[i].0.clone(), copied));
            i = i + 1;
        }
        FileConfig {
            provider: ProviderConfig {
                default: self.provider.default.clone(),
                fallback: self.provider.fallback.clone(),
            },
            context: self.context,
            safety: SafetyConfig {
                dangerous_patterns: self.safety.dangerous_patterns.clone(),
                confirm_dangerous: self.safety.confirm_dangerous,
            },
            ui: UiConfig {
                color: self.ui.color.clone(),
                debug_log_file: crate::provider::clone_opt_string(&self.ui.debug_log_file),
            },
            providers,
        }
    }
}

} // verus!

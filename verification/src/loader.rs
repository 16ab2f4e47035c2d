//! Configuration-file loading logic: the errors a load can produce, the
//! permission rule for credential-bearing files, environment-variable
//! references, and the merge across loaded files. Reading the files
//! themselves happens outside the library; the checks and merges on what
//! was read live here.

use vstd::prelude::*;
use crate::config_file::{default_file_patterns, is_default_file_config, FileConfig};
use crate::envsnap::{env_get, env_lookup};
use crate::strutil::str_eq;

verus! {

/// Why a configuration file could not be loaded.
#[derive(Debug, Clone, PartialEq, Eq)]
pub enum ConfigLoadError {
    /// The file does not exist.
    NotFound(String),
    /// The file is readable by others; it must be private to its owner.
    InsecurePermissions(String),
    /// The file could not be read.
    ReadError(String),
    /// The file is not valid TOML.
    ParseError(String),
    /// The file's permissions could not be inspected.
    PermissionCheckError(String),
}

impl ConfigLoadError {
    /// A human-readable rendering of the error.
    pub fn message(&self) -> (r: String)
        ensures
            r@ == config_load_error_message(*self),
    {
        let mut s = String::new();
        match self {
            ConfigLoadError::NotFound(p) => {
                s.append("Config file not found: ");
                s.append(p.as_str());
            },
            ConfigLoadError::InsecurePermissions(p) => {
                s.append("Config file has insecure permissions (must be 0600): ");
                s.append(p.as_str());
            },
            ConfigLoadError::ReadError(p) => {
                s.append("Failed to read config file: ");
                s.append(p.as_str());
            },
            ConfigLoadError::ParseError(p) => {
                s.append("Failed to parse TOML config: ");
                s.append(p.as_str());
            },
            ConfigLoadError::PermissionCheckError(p) => {
                s.append("Failed to check file permissions: ");
                s.append(p.as_str());
            },
        }
        s
    }
}

/// The message text of each load error.
pub open spec fn config_load_error_message(e: ConfigLoadError) -> Seq<char> {
    match e {
        ConfigLoadError::NotFound(p) => "Config file not found: "@ + p@,
        ConfigLoadError::InsecurePermissions(p) => "Config file has insecure permissions (must be 0600): "@
            + p@,
        ConfigLoadError::ReadError(p) => "Failed to read config file: "@ + p@,
        ConfigLoadError::ParseError(p) => "Failed to parse TOML config: "@ + p@,
        ConfigLoadError::PermissionCheckError(p) => "Failed to check file permissions: "@ + p@,
    }
}

/// The octal rendering of a non-negative integer.
pub open spec fn oct_digits(n: int) -> Seq<char>
    decreases n,
{
    if n < 8 {
        seq![crate::strutil::digit_char(n)]
    } else {
        oct_digits(n / 8) + seq![crate::strutil::digit_char(n % 8)]
    }
}

fn u32_to_octal(n: u32) -> (r: String)
    ensures
        r@ == oct_digits(n as int),
    decreases n,
{
    let d: u64 = (n % 8) as u64;
    if n < 8 {
        crate::strutil::u64_to_string(d)
    } else {
        let mut r = u32_to_octal(n / 8);
        let digit = crate::strutil::u64_to_string(d);
        r.append(digit.as_str());
        r
    }
}

/// Checks that a credential-bearing file is private to its owner: its
/// permission bits, with `mode` as the raw mode, must be exactly 0600.
/// `path` only names the file in the error.
pub fn check_file_permissions(path: &str, mode: u32) -> (r: Result<(), ConfigLoadError>)
    ensures
        mode & 0o777 == 0o600 <==> r is Ok,
        r matches Err(e) ==> e matches ConfigLoadError::InsecurePermissions(m) && m@ == "File "@
            + path@ + " has permissions "@ + oct_digits((mode & 0o777) as int)
            + ", but must be 0600"@,
{
    let bits: u32 = mode & 0x1ff;
    proof {
        assert(mode & 0o777 == mode & 0x1ff) by (bit_vector);
    }
    if bits == 0o600 {
        Ok(())
    } else {
        let mut m = String::new();
        m.append("File ");
        m.append(path);
        m.append(" has permissions ");
        let oct = u32_to_octal(bits);
        m.append(oct.as_str());
        m.append(", but must be 0600");
        Err(ConfigLoadError::InsecurePermissions(m))
    }
}

/// The variable name inside an environment reference: `${NAME}` and
/// `$NAME` unwrap to `NAME`; anything else is taken as the name itself.
pub open spec fn env_ref_name(s: Seq<char>) -> Seq<char> {
    if s.len() >= 3 && s[0] == '$' && s[1] == '{' && s.last() == '}' {
        s.subrange(2, s.len() - 1)
    } else if s.len() >= 1 && s[0] == '$' {
        s.skip(1)
    } else {
        s
    }
}

/// Resolves an environment-variable reference (`${NAME}`, `$NAME` or a
/// bare name) against the given environment snapshot.
pub fn resolve_env_var_reference(env_ref: &str, env: &Vec<(String, String)>) -> (r: Option<String>)
    ensures
        match r {
            Some(v) => env_lookup(env@, env_ref_name(env_ref@)) == Some(v@),
            None => env_lookup(env@, env_ref_name(env_ref@)) is None,
        },
{
    let n: usize = env_ref.unicode_len();
    if n >= 3 && env_ref.get_char(0) == '$' && env_ref.get_char(1) == '{' && env_ref.get_char(
        n - 1,
    ) == '}' {
        let name = env_ref.substring_char(2, n - 1);
        proof {
            assert(env_ref@.subrange(2, n - 1) == env_ref@.subrange(2, env_ref@.len() - 1));
        }
        env_get(env, name)
    } else if n >= 1 && env_ref.get_char(0) == '$' {
        let name = env_ref.substring_char(1, n);
        proof {
            assert(env_ref@.subrange(1, n as int) =~= env_ref@.skip(1));
        }
        env_get(env, name)
    } else {
        env_get(env, env_ref)
    }
}

/// Whether `c` holds exactly the default configuration values.
pub fn is_default_config(c: &FileConfig) -> (r: bool)
    ensures
        r == is_default_file_config(*c),
{
    if !str_eq(c.provider.default.as_str(), "openrouter") {
        return false;
    }
    if c.provider.fallback.len() != 0 {
        return false;
    }
    if !(c.context.max_files == 10 && c.context.max_history == 3 && !c.context.redact_paths
        && !c.context.redact_username) {
        return false;
    }
    if !c.safety.confirm_dangerous {
        return false;
    }
    let defaults = crate::config_file::default_dangerous_patterns();
    if c.safety.dangerous_patterns.len() != defaults.len() {
        proof {
            assert(c.safety.dangerous_patterns.deep_view().len()
                != default_file_patterns().len());
        }
        return false;
    }
    let mut i: usize = 0;
    while i < defaults.len()
        invariant
            0 <= i <= defaults@.len(),
            defaults.deep_view() == default_file_patterns(),
            c.safety.dangerous_patterns@.len() == defaults@.len(),
            forall|j: int| 0 <= j < i ==> c.safety.dangerous_patterns.deep_view()[j]
                == default_file_patterns()[j],
        decreases defaults@.len() - i,
    {
        if !str_eq(c.safety.dangerous_patterns[i].as_str(), defaults[i].as_str()) {
            proof {
                assert(c.safety.dangerous_patterns.deep_view()[i as int]
                    != default_file_patterns()[i as int]);
            }
            return false;
        }
        i = i + 1;
    }
    proof {
        if c.safety.dangerous_patterns.deep_view() != default_file_patterns() {
            assert(c.safety.dangerous_patterns.deep_view() =~= default_file_patterns());
        }
    }
    if !str_eq(c.ui.color.as_str(), "auto") {
        return false;
    }
    if c.ui.debug_log_file.is_some() {
        return false;
    }
    if c.providers.len() != 0 {
        return false;
    }
    true
}

/// Merges one loaded configuration over a base: a loaded file that left
/// everything at the defaults defers wholly to the base; anything else
/// replaces the base wholesale.
pub fn merge_configs(base: FileConfig, over: FileConfig) -> (r: FileConfig)
    ensures
        r == if is_default_file_config(over) {
            base
        } else {
            over
        },
{
    if is_default_config(&over) {
        base
    } else {
        over
    }
}

/// The last configuration of `l` that is not wholly default, scanning
/// from the end.
pub open spec fn last_non_default(l: Seq<FileConfig>) -> Option<FileConfig>
    decreases l.len(),
{
    if l.len() == 0 {
        None
    } else if !is_default_file_config(l.last()) {
        Some(l.last())
    } else {
        last_non_default(l.drop_last())
    }
}

/// Merges the configurations loaded from the discovered files, handed in
/// lowest-priority first: the last file that set anything wins whole;
/// when none did, the defaults stand.
pub fn merge_loaded_configs(configs: Vec<FileConfig>) -> (r: FileConfig)
    ensures
        match last_non_default(configs@) {
            Some(c) => r == c,
            None => is_default_file_config(r),
        },
{
    let ghost full = configs@;
    let mut rest = configs;
    loop
        invariant
            full == configs@,
            last_non_default(full) == last_non_default(rest@),
        decreases rest@.len(),
    {
        match rest.pop() {
            Some(c) => {
                if !is_default_config(&c) {
                    return c;
                }
            },
            None => {
                return FileConfig::default();
            },
        }
    }
}

} // verus!

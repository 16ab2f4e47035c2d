//! The per-process configuration cache, held as explicit state by the
//! caller: the merged configuration is computed once and reused.

use vstd::prelude::*;
use crate::cli::Cli;
use crate::config_file::{file_config_eqv, is_default_file_config, FileConfig};
use crate::merger::{cli_merged, env_merged, file_merged, merge_all_configs};

verus! {

/// The cache of the merged configuration.
#[derive(Debug)]
pub struct ConfigCache {
    /// The merged configuration, once computed.
    pub cached: Option<FileConfig>,
}

impl ConfigCache {
    /// An empty cache: nothing merged yet.
    pub fn new() -> (r: ConfigCache)
        ensures
            r.cached is None,
    {
        ConfigCache { cached: None }
    }
}

/// Returns the merged configuration, computing and caching it on first
/// use: later calls return the cached content unchanged, whatever inputs
/// they carry.
pub fn get_file_config(
    cache: &mut ConfigCache,
    cli: &Cli,
    files: FileConfig,
    env: &Vec<(String, String)>,
) -> (r: FileConfig)
    ensures
        final(cache).cached is Some,
        old(cache).cached matches Some(c) ==> *final(cache) == *old(cache) && file_config_eqv(
            r,
            c,
        ),
        old(cache).cached is None ==> {
            &&& final(cache).cached matches Some(c) && file_config_eqv(c, r)
            &&& exists|defaults: FileConfig, from_files: FileConfig, with_env: FileConfig|
                {
                    &&& is_default_file_config(defaults)
                    &&& file_merged(defaults, files, from_files)
                    &&& env_merged(from_files, env@, with_env)
                    &&& cli_merged(with_env, *cli, r)
                }
        },
{
    match &cache.cached {
        Some(c) => c.duplicate(),
        None => {
            let merged = merge_all_configs(cli, files, env);
            cache.cached = Some(merged.duplicate());
            merged
        },
    }
}

/// Empties the cache, so that the next use merges afresh.
pub fn reset_config_cache(cache: &mut ConfigCache)
    ensures
        final(cache).cached is None,
{
    cache.cached = None;
}

} // verus!

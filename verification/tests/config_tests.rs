use clai::cache::{get_file_config, reset_config_cache, ConfigCache};
use clai::cli::{Cli, ColorChoice};
use clai::config::{expand_path, Config};
use clai::config_file::{FileConfig, ProviderConfig, ProviderSpecificConfig};
use clai::loader::{check_file_permissions, merge_configs, resolve_env_var_reference, ConfigLoadError};
use clai::merger::{merge_cli_config, merge_env_config, merge_file_configs};
use clai::paths::discover_config_paths;

fn plain_cli(instruction: &str) -> Cli {
    Cli {
        instruction: instruction.to_string(),
        model: None,
        provider: None,
        quiet: false,
        verbose: 0,
        no_color: false,
        color: ColorChoice::Auto,
        interactive: false,
        force: false,
        dry_run: false,
        context: None,
        offline: false,
        num_options: 3,
        debug: false,
        debug_file: None,
    }
}

#[test]
fn test_default_config() {
    let config = FileConfig::default();

    assert_eq!(config.provider.default, "openrouter");
    assert_eq!(config.context.max_files, 10);
    assert_eq!(config.context.max_history, 3);
    assert_eq!(config.safety.dangerous_patterns.len(), 6);
    assert_eq!(config.ui.color, "auto");
    assert_eq!(config.safety.confirm_dangerous, true);
}

#[test]
fn file_test_config_clone() {
    let config1 = FileConfig::default();
    let config2 = config1.clone();

    assert_eq!(config1, config2);
}

#[test]
fn test_dangerous_patterns_default() {
    let config = FileConfig::default();
    let patterns = &config.safety.dangerous_patterns;

    assert!(patterns.contains(&"rm -rf".to_string()));
    assert!(patterns.contains(&"sudo rm".to_string()));
    assert!(patterns.contains(&"mkfs".to_string()));
    assert!(patterns.contains(&"dd if=".to_string()));
    assert!(patterns.contains(&"> /dev/".to_string()));
    assert!(patterns.contains(&"format".to_string()));
}

#[test]
fn test_merge_cli_config() {
    let base = FileConfig::default();
    let mut cli = plain_cli("test");
    cli.model = Some("gpt-4".to_string());
    cli.provider = Some("openai".to_string());

    let merged = merge_cli_config(base, &cli);

    assert_eq!(merged.provider.default, "openai");
    assert!(merged.providers.iter().any(|(name, _)| name == "openai"));
}

#[test]
fn test_merge_env_config() {
    let base = FileConfig::default();
    let env = vec![
        ("provider_default".to_string(), "test-provider".to_string()),
        ("context_max_files".to_string(), "30".to_string()),
    ];

    let merged = merge_env_config(base, &env);

    assert_eq!(merged.provider.default, "test-provider");
    assert_eq!(merged.context.max_files, 30);
}

#[test]
fn test_merge_file_configs() {
    let base = FileConfig::default();
    let mut override_config = FileConfig::default();
    override_config.context.max_files = 50;
    override_config.provider.default = "custom".to_string();

    let merged = merge_file_configs(base, override_config);

    assert_eq!(merged.context.max_files, 50);
    assert_eq!(merged.provider.default, "custom");
    assert_eq!(merged.context.max_history, 3);
}

#[test]
fn test_merge_file_configs_upserts_providers() {
    let mut base = FileConfig::default();
    base.providers.push((
        "openrouter".to_string(),
        ProviderSpecificConfig {
            api_key: Some("old".to_string()),
            api_key_env: None,
            model: None,
            endpoint: None,
        },
    ));
    let mut over = FileConfig::default();
    over.providers.push((
        "openrouter".to_string(),
        ProviderSpecificConfig {
            api_key: Some("new".to_string()),
            api_key_env: None,
            model: None,
            endpoint: None,
        },
    ));
    let merged = merge_file_configs(base, over);
    assert_eq!(merged.providers.len(), 1);
    assert_eq!(merged.providers[0].1.api_key, Some("new".to_string()));
}

#[test]
fn test_config_from_cli_immutability() {
    let mut cli = plain_cli("test");
    cli.model = Some("test-model".to_string());
    cli.quiet = true;
    cli.verbose = 2;
    cli.no_color = true;
    cli.force = true;
    cli.offline = true;

    let config1 = Config::from_cli(cli.clone());
    let config2 = Config::from_cli(cli);

    assert_eq!(config1, config2);

    assert_eq!(config1.instruction, "test");
    assert_eq!(config1.model, Some("test-model".to_string()));
    assert_eq!(config1.quiet, true);
    assert_eq!(config1.verbose, 2);
    assert_eq!(config1.offline, true);
    assert_eq!(config1.num_options, 3);
}

#[test]
fn mod_test_config_clone() {
    let cli = plain_cli("clone test");

    let config = Config::from_cli(cli);
    let cloned = config.clone();

    assert_eq!(config, cloned);
}

#[test]
fn test_num_options_clamping() {
    let mut cli_zero = plain_cli("test");
    cli_zero.num_options = 0;
    let config = Config::from_cli(cli_zero);
    assert_eq!(config.num_options, 1);

    let mut cli_high = plain_cli("test");
    cli_high.num_options = 50;
    let config = Config::from_cli(cli_high);
    assert_eq!(config.num_options, 10);
}

#[test]
fn test_discover_config_paths_returns_all_paths() {
    let paths = discover_config_paths(None, None);

    assert!(paths.len() >= 2);
    assert_eq!(paths[0], "./.clai.toml");
    assert_eq!(paths[paths.len() - 1], "/etc/clai/config.toml");
}

#[test]
fn test_discover_config_paths_order() {
    let paths = discover_config_paths(Some("/test/xdg/config"), Some("/home/u/.config"));

    assert_eq!(paths[0], "./.clai.toml");
    assert_eq!(paths[1], "/test/xdg/config/clai/config.toml");
    assert_eq!(paths[2], "/home/u/.config/clai/config.toml");
    assert_eq!(paths[paths.len() - 1], "/etc/clai/config.toml");
}

#[test]
fn test_discover_config_paths_skips_duplicate_home() {
    let paths = discover_config_paths(Some("/same"), Some("/same"));
    assert_eq!(
        paths,
        vec![
            "./.clai.toml".to_string(),
            "/same/clai/config.toml".to_string(),
            "/etc/clai/config.toml".to_string(),
        ]
    );
}

#[test]
fn test_discover_config_paths_pure() {
    let paths1 = discover_config_paths(Some("/x"), None);
    let paths2 = discover_config_paths(Some("/x"), None);

    assert_eq!(paths1, paths2);
}

#[test]
fn test_lazy_config_loading() {
    let mut cache = ConfigCache::new();
    let cli = plain_cli("test");
    let env: Vec<(String, String)> = Vec::new();

    let config1 = get_file_config(&mut cache, &cli, FileConfig::default(), &env);
    let config2 = get_file_config(&mut cache, &cli, FileConfig::default(), &env);

    assert_eq!(config1, config2);
}

#[test]
fn test_config_cache_reset() {
    let mut cache = ConfigCache::new();
    let cli = plain_cli("test");
    let env: Vec<(String, String)> = Vec::new();

    let _config1 = get_file_config(&mut cache, &cli, FileConfig::default(), &env);

    reset_config_cache(&mut cache);
    assert!(cache.cached.is_none());

    let config2 = get_file_config(&mut cache, &cli, FileConfig::default(), &env);
    assert_eq!(config2.provider.default, "openrouter");
}

#[test]
fn test_check_file_permissions_values() {
    assert!(check_file_permissions("/tmp/a", 0o100600).is_ok());
    let denied = check_file_permissions("/tmp/a", 0o100644);
    match denied {
        Err(ConfigLoadError::InsecurePermissions(m)) => {
            assert!(m.contains("644"));
            assert!(m.contains("must be 0600"));
        }
        _ => panic!("expected InsecurePermissions"),
    }
}

#[test]
fn test_resolve_env_var_reference() {
    let env = vec![("TEST_API_KEY".to_string(), "test-key-value".to_string())];

    assert_eq!(
        resolve_env_var_reference("${TEST_API_KEY}", &env),
        Some("test-key-value".to_string())
    );
    assert_eq!(
        resolve_env_var_reference("$TEST_API_KEY", &env),
        Some("test-key-value".to_string())
    );
    assert_eq!(resolve_env_var_reference("${NONEXISTENT}", &env), None);
}

#[test]
fn test_merge_configs_prefers_non_default() {
    let mut over = FileConfig::default();
    over.context.max_files = 42;
    let merged = merge_configs(FileConfig::default(), over.clone());
    assert_eq!(merged, over);

    let mut base = FileConfig::default();
    base.provider.default = "kept".to_string();
    let merged = merge_configs(base.clone(), FileConfig::default());
    assert_eq!(merged, base);
}

#[test]
fn test_expand_path() {
    assert_eq!(expand_path("~/notes/x.log", Some("/home/u")), "/home/u/notes/x.log");
    assert_eq!(expand_path("~/x", None), "~/x");
    assert_eq!(expand_path("/abs/x", Some("/home/u")), "/abs/x");
}

#[test]
fn test_provider_config_defaults() {
    let p = ProviderConfig::default();
    assert_eq!(p.default, "openrouter");
    assert!(p.fallback.is_empty());
}

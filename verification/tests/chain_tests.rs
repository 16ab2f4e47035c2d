use clai::chain::{complete_from_outcomes, init_provider, ProviderChain, ProviderOutcome};
use clai::chat::ChatResponse;
use clai::config_file::{FileConfig, ProviderConfig, ProviderSpecificConfig};
use clai::provider::{
    complete_with_retry, error_from_status, resolve_model, retry_step, CallOutcome,
    ErrorCategory, ProviderError, RetryStep,
};

fn create_test_config() -> FileConfig {
    let mut config = FileConfig::default();
    config.providers.push((
        "openrouter".to_string(),
        ProviderSpecificConfig {
            api_key: None,
            api_key_env: Some("OPENROUTER_API_KEY".to_string()),
            model: Some("openai/gpt-4o".to_string()),
            endpoint: None,
        },
    ));
    config.provider = ProviderConfig {
        default: "openrouter".to_string(),
        fallback: vec!["openrouter".to_string()],
    };
    config
}

#[test]
fn test_provider_chain_creation() {
    let config = create_test_config();
    let chain = ProviderChain::new(config);

    assert_eq!(chain.providers().len(), 1);
    assert_eq!(chain.providers()[0], "openrouter");
}

#[test]
fn test_parse_model_with_provider() {
    let config = create_test_config();
    let chain = ProviderChain::new(config);

    let (provider, model) = chain.parse_model("openrouter/gpt-4o");
    assert_eq!(provider, "openrouter");
    assert_eq!(model, "gpt-4o");
}

#[test]
fn test_parse_model_without_provider() {
    let config = create_test_config();
    let chain = ProviderChain::new(config);

    let (provider, model) = chain.parse_model("gpt-4o");
    assert_eq!(provider, "openrouter");
    assert_eq!(model, "gpt-4o");
}

#[test]
fn test_provider_chain_fallback_order() {
    let mut config = create_test_config();
    config.provider.fallback = vec!["openrouter".to_string(), "ollama".to_string()];
    config.provider.default = "openrouter".to_string();

    let chain = ProviderChain::new(config);
    let providers = chain.providers();

    assert_eq!(providers.len(), 2);
    assert_eq!(providers[0], "openrouter");
    assert_eq!(providers[1], "ollama");
}

fn net_error(msg: &str) -> ProviderError {
    ProviderError {
        category: ErrorCategory::Network,
        status: None,
        message: msg.to_string(),
    }
}

#[test]
fn test_chain_first_success_wins() {
    // Whatever the position of the one provider that is available and
    // succeeds, the chain returns its response.
    let resp = ChatResponse::new("answer".to_string());
    for position in 0..3usize {
        let providers = vec!["a".to_string(), "b".to_string(), "c".to_string()];
        let mut outcomes = vec![
            ProviderOutcome::Unavailable,
            ProviderOutcome::InitFailed("no key".to_string()),
            ProviderOutcome::CallFailed(net_error("down")),
        ];
        outcomes[position] = ProviderOutcome::Success(resp.clone());
        let result = complete_from_outcomes(&providers, &outcomes);
        assert_eq!(result, Ok(resp.clone()), "position {}", position);
    }
}

#[test]
fn test_chain_all_fail_surfaces_last_error() {
    let providers = vec!["a".to_string(), "b".to_string()];
    let outcomes = vec![
        ProviderOutcome::Unavailable,
        ProviderOutcome::CallFailed(net_error("boom")),
    ];
    let result = complete_from_outcomes(&providers, &outcomes);
    assert_eq!(result, Err("Provider b failed: boom".to_string()));

    let empty: Vec<String> = vec![];
    let no_outcomes: Vec<ProviderOutcome> = vec![];
    assert_eq!(
        complete_from_outcomes(&empty, &no_outcomes),
        Err("All providers in chain failed".to_string())
    );
}

#[test]
fn test_init_provider_key_resolution() {
    let config = create_test_config();
    let env = vec![("OPENROUTER_API_KEY".to_string(), "sk-env".to_string())];
    let init = init_provider(&config, "openrouter", &env).unwrap();
    assert_eq!(init.api_key, "sk-env");
    assert_eq!(init.model, Some("openai/gpt-4o".to_string()));

    let mut with_direct = create_test_config();
    with_direct.providers[0].1.api_key = Some("sk-direct".to_string());
    let init = init_provider(&with_direct, "openrouter", &env).unwrap();
    assert_eq!(init.api_key, "sk-direct");

    let no_env: Vec<(String, String)> = vec![];
    let missing = init_provider(&config, "openrouter", &no_env);
    assert_eq!(missing, Err("OpenRouter API key not found".to_string()));

    let unknown = init_provider(&config, "ollama", &env);
    assert_eq!(unknown, Err("Unknown provider: ollama".to_string()));
}

#[test]
fn test_retry_rate_limited_twice_then_success() {
    // Exactly two rate-limit failures, then success: the success comes
    // back after exactly two delays of 1 and 2 seconds.
    let rate_limited = error_from_status(429, "slow down");
    let resp = ChatResponse::new("ok".to_string());
    let outcomes = vec![
        CallOutcome::Failure(rate_limited.clone()),
        CallOutcome::Failure(rate_limited.clone()),
        CallOutcome::Success(resp.clone()),
        CallOutcome::Success(resp.clone()),
    ];
    let (result, delays) = complete_with_retry(&outcomes);
    assert_eq!(result, Ok(resp));
    assert_eq!(delays, vec![1, 2]);
}

#[test]
fn test_retry_auth_error_single_attempt() {
    let auth = error_from_status(401, "bad key");
    let resp = ChatResponse::new("never".to_string());
    let outcomes = vec![
        CallOutcome::Failure(auth.clone()),
        CallOutcome::Success(resp.clone()),
        CallOutcome::Success(resp.clone()),
        CallOutcome::Success(resp),
    ];
    let (result, delays) = complete_with_retry(&outcomes);
    assert_eq!(result, Err(auth));
    assert!(delays.is_empty());
}

#[test]
fn test_retry_gives_up_after_three() {
    let rate_limited = error_from_status(429, "still busy");
    let outcomes = vec![
        CallOutcome::Failure(rate_limited.clone()),
        CallOutcome::Failure(rate_limited.clone()),
        CallOutcome::Failure(rate_limited.clone()),
        CallOutcome::Failure(rate_limited.clone()),
    ];
    let (result, delays) = complete_with_retry(&outcomes);
    assert_eq!(result, Err(rate_limited));
    assert_eq!(delays, vec![1, 2, 4]);
}

#[test]
fn test_error_from_status_categories() {
    assert_eq!(error_from_status(401, "").category, ErrorCategory::Authentication);
    assert_eq!(error_from_status(403, "").category, ErrorCategory::Authentication);
    assert_eq!(error_from_status(429, "").category, ErrorCategory::RateLimit);
    assert_eq!(error_from_status(408, "").category, ErrorCategory::Timeout);
    assert_eq!(error_from_status(504, "").category, ErrorCategory::Timeout);
    assert_eq!(error_from_status(500, "").category, ErrorCategory::Api);
    let e = error_from_status(429, "body text");
    assert_eq!(e.status, Some(429));
    assert_eq!(e.message, "Rate limit error (429): Too many requests. body text");
    let auth = error_from_status(401, "no");
    assert_eq!(auth.message, "Authentication error (401): Invalid or missing API key. no");
}

#[test]
fn test_resolve_model_precedence() {
    assert_eq!(
        resolve_model(Some("wanted".to_string()), Some("configured".to_string())),
        "wanted"
    );
    assert_eq!(resolve_model(None, Some("configured".to_string())), "configured");
    assert_eq!(resolve_model(None, None), "qwen/qwen3-coder");
}

#[test]
fn test_provider_chain_default_first_and_dedup() {
    // The default provider leads even when the fallbacks already name it,
    // and repeated fallback names are dropped.
    let mut config = create_test_config();
    config.provider.default = "openrouter".to_string();
    config.provider.fallback =
        vec!["x".to_string(), "openrouter".to_string(), "x".to_string()];

    let chain = ProviderChain::new(config);
    assert_eq!(chain.providers(), &vec!["openrouter".to_string(), "x".to_string()]);
}

#[test]
fn test_resolve_request_model() {
    let config = create_test_config();
    let chain = ProviderChain::new(config);

    // Scoped to the chain's first provider: the bare model name is sent.
    assert_eq!(
        chain.resolve_request_model(Some(&"openrouter/gpt-4o".to_string())),
        Some("gpt-4o".to_string())
    );
    // Scoped to another provider: the full form is kept.
    assert_eq!(
        chain.resolve_request_model(Some(&"ollama/llama3".to_string())),
        Some("ollama/llama3".to_string())
    );
    // Unscoped: passed through.
    assert_eq!(
        chain.resolve_request_model(Some(&"gpt-4o".to_string())),
        Some("gpt-4o".to_string())
    );
    assert_eq!(chain.resolve_request_model(None), None);
}

#[test]
fn test_retry_step_transitions() {
    let rate_limited = error_from_status(429, "busy");
    let auth = error_from_status(401, "no");
    let resp = ChatResponse::new("ok".to_string());

    assert_eq!(
        retry_step(3, 1, CallOutcome::Failure(rate_limited.clone())),
        RetryStep::Retry { sleep_secs: 1, retries: 2, delay: 2 }
    );
    assert_eq!(
        retry_step(0, 8, CallOutcome::Failure(rate_limited.clone())),
        RetryStep::Done(Err(rate_limited))
    );
    assert_eq!(
        retry_step(3, 1, CallOutcome::Failure(auth.clone())),
        RetryStep::Done(Err(auth))
    );
    assert_eq!(
        retry_step(2, 2, CallOutcome::Success(resp.clone())),
        RetryStep::Done(Ok(resp))
    );
}

use cmdbot::config::{default_max_tokens, default_timeout, default_true, ExecutorConfig};

#[test]
fn default_values_match_the_configuration_surface() {
    assert_eq!(default_max_tokens(), 2048);
    assert_eq!(default_timeout(), 120);
    assert!(default_true());
}

#[test]
fn executor_config_default_is_conservative() {
    let config = ExecutorConfig::default();
    assert!(config.working_dir.is_none());
    assert_eq!(config.timeout_secs, 120);
    assert!(config.echo_result);
}

use tokuin::simulator::SimulatorConfig;

#[test]
fn test_simulator_config_new() {
    let config = SimulatorConfig::new(5, 50);
    assert_eq!(config.concurrency, 5);
    assert_eq!(config.runs, 50);
    assert_eq!(config.retry, 3);
    assert!(config.think_time.is_none());
    assert!(!config.dry_run);
}

#[test]
fn test_parse_think_time_single() {
    let think_time = SimulatorConfig::parse_think_time("500ms").unwrap();
    assert_eq!(think_time.min_ms, 500);
    assert_eq!(think_time.max_ms, 500);
}

#[test]
fn test_parse_think_time_range() {
    let think_time = SimulatorConfig::parse_think_time("250-750ms").unwrap();
    assert_eq!(think_time.min_ms, 250);
    assert_eq!(think_time.max_ms, 750);
}

#[test]
fn test_parse_think_time_no_suffix() {
    let think_time = SimulatorConfig::parse_think_time("500").unwrap();
    assert_eq!(think_time.min_ms, 500);
    assert_eq!(think_time.max_ms, 500);
}

#[test]
fn test_parse_think_time_invalid_range() {
    let result = SimulatorConfig::parse_think_time("750-250ms");
    assert!(result.is_err());
    assert!(result
        .unwrap_err()
        .contains("Min think time must be <= max think time"));
}

#[test]
fn test_parse_think_time_invalid_format() {
    let result = SimulatorConfig::parse_think_time("invalid");
    assert!(result.is_err());
}

#[test]
fn test_parse_think_time_uppercase_suffix() {
    let think_time = SimulatorConfig::parse_think_time(" 250-750MS ").unwrap();
    assert_eq!(think_time.min_ms, 250);
    assert_eq!(think_time.max_ms, 750);
}

use tokuin::error::ModelError;
use tokuin::models::ModelRegistry;

#[test]
fn test_get_tokenizer() {
    let registry = ModelRegistry::new();
    let tokenizer = registry.get_tokenizer("gpt-4");
    assert!(tokenizer.is_ok());
}

#[test]
fn test_get_model_info() {
    let registry = ModelRegistry::new();
    let info = registry.get_model_info("gpt-4");
    assert!(info.is_some());
    if let Some(info) = info {
        assert_eq!(info.provider, "openai");
        assert_eq!(info.model, "gpt-4");
        assert_eq!(info.input_price, Some(30000));
        assert_eq!(info.output_price, Some(60000));
    }
}

#[test]
fn test_list_models() {
    let registry = ModelRegistry::new();
    let models = registry.list_models();
    assert!(!models.is_empty());
}

#[test]
fn apply_pricing_overrides_from_file() {
    let doc = "[openai]\n[openai.gpt-4]\ninput = 0.02\noutput = 0.04\n";

    let registry = ModelRegistry::new_with_pricing(Some(doc)).expect("registry with overrides");

    let pricing = registry.pricing_for("gpt-4").expect("pricing present");
    assert_eq!(pricing.0, 20000);
    assert_eq!(pricing.1, 40000);

    // Ensure alias lookup still works
    let pricing_alias = registry
        .pricing_for("openai/gpt-4")
        .expect("pricing for provider-prefixed key");
    assert_eq!(pricing_alias.0, 20000);
}

#[test]
fn pricing_override_case_insensitive_lookup() {
    let doc = "[openai.gpt-4]\ninput = 0.02\noutput = 0.04\n";
    let registry = ModelRegistry::new_with_pricing(Some(doc)).unwrap();
    assert_eq!(registry.pricing_for("gpt-4").unwrap().0, 20000);
    assert_eq!(registry.pricing_for("openai/gpt-4").unwrap().0, 20000);
    assert_eq!(registry.pricing_for("GPT-4").unwrap().0, 20000);
}

#[test]
fn pricing_override_malformed_fails_whole() {
    let registry = ModelRegistry::new_with_pricing(Some("[openai.gpt-4]\ninput = 0.02\n"));
    assert!(matches!(registry, Err(ModelError::ConfigLoadFailed(_))));

    let registry = ModelRegistry::new_with_pricing(Some("input = 0.02\n"));
    assert!(registry.is_err());

    let registry = ModelRegistry::new_with_pricing(Some("[openai.gpt-4]\ninput = abc\noutput = 1\n"));
    assert!(registry.is_err());
}

#[test]
fn pricing_override_none_is_noop() {
    let registry = ModelRegistry::new_with_pricing(None).unwrap();
    assert_eq!(registry.pricing_for("gpt-4").unwrap().0, 30000);
}

#[test]
fn pricing_six_fraction_digits() {
    let doc = "[google.gemini-pro]\ninput = 0.000075\noutput = 0.0003\n";
    let registry = ModelRegistry::new_with_pricing(Some(doc)).unwrap();
    let pricing = registry.pricing_for("gemini-pro").unwrap();
    assert_eq!(pricing.0, 75);
    assert_eq!(pricing.1, 300);
}

#[test]
fn pricing_unknown_keys_ignored_duplicates_rejected() {
    let doc = "[openai.gpt-4]\ninput = 0.02\nnote = hello\noutput = 0.04\n";
    assert!(ModelRegistry::new_with_pricing(Some(doc)).is_ok());

    let doc = "[openai.gpt-4]\ninput = 0.02\ninput = 0.03\noutput = 0.04\n";
    assert!(ModelRegistry::new_with_pricing(Some(doc)).is_err());
}

#[test]
fn test_resolve_alias() {
    let registry = ModelRegistry::new();
    assert_eq!(registry.resolve_alias("openai/gpt-4"), "gpt-4");
    assert_eq!(registry.resolve_alias("gpt-4-turbo"), "gpt-4-turbo-preview");
    assert_eq!(registry.resolve_alias("gpt-4-turbo-preview"), "gpt-4-turbo-preview");
    // idempotence on an already-resolved name
    let once = registry.resolve_alias("google/gemini-pro");
    let twice = registry.resolve_alias(&once);
    assert_eq!(once, twice);
}

#[test]
fn test_unknown_model_not_found() {
    let registry = ModelRegistry::new();
    let result = registry.get_tokenizer("not-a-real-model");
    assert!(matches!(result, Err(ModelError::ModelNotFound { .. })));
}

#[test]
fn test_unpriced_model_reports_nothing() {
    let registry = ModelRegistry::new();
    assert!(registry.pricing_for("not-a-real-model").is_none());
}

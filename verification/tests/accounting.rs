use tokuin::cli::{Cli, OutputFormat};
use tokuin::error::{AppError, ModelError};
use tokuin::http::{AnthropicClient, ClientConfig, GenericClient};
use tokuin::models::ModelRegistry;
use tokuin::output::{JsonFormatter, TextFormatter, TokenBreakdown};

fn cli_for(model: &str, breakdown: bool, price: bool) -> Cli {
    Cli {
        input: None,
        model: Some(model.to_string()),
        compare: Vec::new(),
        breakdown,
        format: OutputFormat::Text,
        price,
        diff: None,
        watch: false,
    }
}

#[test]
fn plain_text_single_user_message_with_pricing() {
    // plain text in, one user-role message, positive count, and
    // input_cost == tokens * price-per-1k (in nano-dollars)
    let cli = cli_for("gpt-4", true, true);
    let results = cli.analyze("Hello, world!").unwrap();
    assert_eq!(results.len(), 1);
    let r = &results[0];
    assert_eq!(r.model, "gpt-4");
    assert!(r.tokens > 0);
    assert_eq!(r.input_cost, Some(r.tokens as u128 * 30000));
    assert_eq!(r.output_cost, Some(r.tokens as u128 * 60000));
    let bd = r.breakdown.as_ref().unwrap();
    assert_eq!(bd.user, r.tokens);
    assert_eq!(bd.system, 0);
    assert_eq!(bd.assistant, 0);
    assert_eq!(bd.total, r.tokens);
}

#[test]
fn structured_input_breakdown_by_role() {
    let registry = ModelRegistry::new();
    let tokenizer = registry.get_tokenizer("gpt-4").unwrap();
    let system_count = tokenizer.count_tokens("Be concise.").unwrap();
    let user_count = tokenizer.count_tokens("Hi").unwrap();

    let cli = cli_for("gpt-4", true, false);
    let input = r#"[{"role":"system","content":"Be concise."},{"role":"user","content":"Hi"}]"#;
    let results = cli.analyze(input).unwrap();
    assert_eq!(results.len(), 1);
    let bd = results[0].breakdown.as_ref().unwrap();
    assert_eq!(bd.system, system_count);
    assert_eq!(bd.user, user_count);
    assert_eq!(bd.total, system_count + user_count);
    assert_eq!(results[0].tokens, bd.total);
    assert!(results[0].input_cost.is_none());
}

#[test]
fn unknown_model_fails_not_silently() {
    let cli = cli_for("not-a-real-model", false, false);
    let result = cli.analyze("hello");
    assert!(matches!(
        result,
        Err(AppError::Model(ModelError::ModelNotFound { .. }))
    ));
}

#[test]
fn pricing_override_applies_under_all_keys() {
    let doc = "[openai]\n[openai.gpt-4]\ninput = 0.02\noutput = 0.04\n";
    let registry = ModelRegistry::new_with_pricing(Some(doc)).unwrap();
    assert_eq!(registry.pricing_for("gpt-4").unwrap().0, 20000);
    assert_eq!(registry.pricing_for("openai/gpt-4").unwrap().0, 20000);
    assert_eq!(registry.pricing_for("GPT-4").unwrap().0, 20000);
}

#[test]
fn unrecognized_role_counts_toward_total_only() {
    let cli = cli_for("gpt-4", true, false);
    let input = r#"[{"role":"tool","content":"some tool output"},{"role":"user","content":"Hi"}]"#;
    let results = cli.analyze(input).unwrap();
    let bd = results[0].breakdown.as_ref().unwrap();
    assert_eq!(bd.system, 0);
    assert_eq!(bd.assistant, 0);
    assert!(bd.user > 0);
    assert!(bd.system + bd.user + bd.assistant < bd.total);
}

#[test]
fn no_model_specified_is_an_error() {
    let cli = Cli {
        input: None,
        model: None,
        compare: Vec::new(),
        breakdown: false,
        format: OutputFormat::Json,
        price: false,
        diff: None,
        watch: false,
    };
    assert!(matches!(cli.analyze("hello"), Err(AppError::Parse(_))));
}

#[test]
fn malformed_structured_input_is_an_error() {
    let cli = cli_for("gpt-4", false, false);
    assert!(matches!(cli.analyze("{not json"), Err(AppError::Parse(_))));
}

#[test]
fn comparison_covers_every_model_in_order() {
    let cli = Cli {
        input: None,
        model: None,
        compare: vec!["gpt-4".to_string(), "gpt-3.5-turbo".to_string()],
        breakdown: false,
        format: OutputFormat::Text,
        price: true,
        diff: None,
        watch: false,
    };
    let results = cli.analyze("Hello, world!").unwrap();
    assert_eq!(results.len(), 2);
    assert_eq!(results[0].model, "gpt-4");
    assert_eq!(results[1].model, "gpt-3.5-turbo");
    assert_eq!(results[0].input_cost, Some(results[0].tokens as u128 * 30000));
    assert_eq!(results[1].input_cost, Some(results[1].tokens as u128 * 1500));
}

#[test]
fn comparison_fails_whole_when_one_model_fails() {
    let cli = Cli {
        input: None,
        model: None,
        compare: vec!["gpt-4".to_string(), "not-a-real-model".to_string()],
        breakdown: false,
        format: OutputFormat::Text,
        price: false,
        diff: None,
        watch: false,
    };
    assert!(cli.analyze("hello").is_err());
}

#[test]
fn diff_reports_signed_delta() {
    let cli = cli_for("gpt-4", false, true);
    let shorter = "Hello!";
    let longer = "Hello there, this is a longer prompt with more words.";
    let d = cli.diff_inputs(shorter, longer).unwrap();
    assert_eq!(d.model, "gpt-4");
    assert!(d.modified_tokens > d.original_tokens);
    assert_eq!(
        d.delta,
        d.modified_tokens as i128 - d.original_tokens as i128
    );
    let expected_cost = (d.modified_tokens as u128 - d.original_tokens as u128) * 30000;
    assert_eq!(d.cost_delta_nanos, Some(expected_cost));
}

#[test]
fn diff_is_antisymmetric() {
    let cli = cli_for("gpt-4", false, true);
    let a = "one two three";
    let b = "a different and rather longer prompt text";
    let forward = cli.diff_inputs(a, b).unwrap();
    let backward = cli.diff_inputs(b, a).unwrap();
    assert_eq!(forward.delta, -backward.delta);
    assert_eq!(forward.cost_delta_nanos, backward.cost_delta_nanos);
}

#[test]
fn diff_requires_a_model() {
    let cli = Cli {
        input: None,
        model: None,
        compare: Vec::new(),
        breakdown: false,
        format: OutputFormat::Text,
        price: false,
        diff: None,
        watch: false,
    };
    assert!(matches!(cli.diff_inputs("a", "b"), Err(AppError::Parse(_))));
}

#[test]
fn gemini_analysis_uses_character_estimate() {
    let cli = cli_for("gemini-pro", false, true);
    let results = cli.analyze("abcdefgh").unwrap();
    assert_eq!(results[0].tokens, 2);
    assert_eq!(results[0].input_cost, Some(2 * 1250));
}

#[test]
fn provider_client_stubs_reject_construction() {
    let config = ClientConfig {
        endpoint: String::new(),
        api_key: "test-key".to_string(),
        timeout_secs: 60,
        headers: Vec::new(),
    };
    assert!(matches!(
        AnthropicClient::new(config),
        Err(AppError::Config(_))
    ));
    let config = ClientConfig {
        endpoint: String::new(),
        api_key: "test-key".to_string(),
        timeout_secs: 60,
        headers: Vec::new(),
    };
    assert!(matches!(
        GenericClient::new(config),
        Err(AppError::Config(_))
    ));
}

#[test]
fn value_objects_construct_empty() {
    let bd = TokenBreakdown::new();
    assert_eq!(bd.system + bd.user + bd.assistant + bd.total, 0);
    let text = TextFormatter::new(true);
    assert!(text.show_breakdown);
    let _json = JsonFormatter::new();
}

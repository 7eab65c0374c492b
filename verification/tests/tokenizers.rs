use tokuin::error::TokenizerError;
use tokuin::tokenizers::{GeminiTokenizer, OpenAITokenizer};

#[test]
fn test_openai_tokenizer_creation() {
    let tokenizer = OpenAITokenizer::new("gpt-4");
    assert!(tokenizer.is_ok());
}

#[test]
fn test_openai_tokenizer_invalid_model() {
    let tokenizer = OpenAITokenizer::new("invalid-model");
    assert!(tokenizer.is_err());
}

#[test]
fn test_encode_decode() {
    let tokenizer = OpenAITokenizer::new("gpt-4").unwrap();
    let text = "Hello, world!";
    let tokens = tokenizer.encode(text).unwrap();
    let decoded = tokenizer.decode(&tokens).unwrap();
    assert_eq!(text, decoded);
}

#[test]
fn test_count_tokens() {
    let tokenizer = OpenAITokenizer::new("gpt-4").unwrap();
    let count = tokenizer.count_tokens("Hello, world!").unwrap();
    assert!(count > 0);
}

#[test]
fn test_count_tokens_empty() {
    let tokenizer = OpenAITokenizer::new("gpt-4").unwrap();
    let count = tokenizer.count_tokens("").unwrap();
    assert_eq!(count, 0);
}

#[test]
fn test_unicode_handling() {
    let tokenizer = OpenAITokenizer::new("gpt-4").unwrap();
    let text = "Hello 世界 🌍";
    let count = tokenizer.count_tokens(text).unwrap();
    assert!(count > 0);
}

#[test]
fn test_pricing() {
    let tokenizer = OpenAITokenizer::new("gpt-4").unwrap();
    assert_eq!(tokenizer.input_price_per_1k(), Some(30000));
    assert_eq!(tokenizer.output_price_per_1k(), Some(60000));
}

#[test]
fn test_count_matches_encode_length() {
    let tokenizer = OpenAITokenizer::new("gpt-4").unwrap();
    for text in ["", "a", "Hello, world!", "some longer text with several words"] {
        let tokens = tokenizer.encode(text).unwrap();
        let count = tokenizer.count_tokens(text).unwrap();
        assert_eq!(count, tokens.len());
    }
}

#[test]
fn test_openai_decode_unknown_token_fails() {
    let tokenizer = OpenAITokenizer::new("gpt-4").unwrap();
    let bogus = vec![usize::MAX];
    assert!(tokenizer.decode(&bogus).is_err());
}

#[test]
fn test_openai_name() {
    let tokenizer = OpenAITokenizer::new("gpt-4").unwrap();
    assert_eq!(tokenizer.name(), "gpt-4");
}

#[test]
fn test_gemini_tokenizer_with_file() {
    // This build carries no vocabulary backend, so requesting one
    // fails with an ordinary initialization error.
    let result = GeminiTokenizer::with_model_file("gemini-pro", "model.spm");
    assert!(matches!(result, Err(TokenizerError::InitializationFailed(_))));
}

#[test]
fn test_gemini_approximate_count() {
    let tokenizer = GeminiTokenizer::new("gemini-pro").unwrap();
    assert_eq!(tokenizer.count_tokens("").unwrap(), 0);
    assert_eq!(tokenizer.count_tokens("abcd").unwrap(), 1);
    assert_eq!(tokenizer.count_tokens("abcde").unwrap(), 2);
    assert_eq!(tokenizer.count_tokens("12345678").unwrap(), 2);
}

#[test]
fn test_gemini_encode_matches_count() {
    let tokenizer = GeminiTokenizer::new("gemini-pro").unwrap();
    let text = "approximately four characters per token";
    let tokens = tokenizer.encode(text).unwrap();
    assert_eq!(tokens.len(), tokenizer.count_tokens(text).unwrap());
}

#[test]
fn test_gemini_decode_fails() {
    let tokenizer = GeminiTokenizer::new("gemini-pro").unwrap();
    let tokens = vec![1, 1, 1];
    assert!(matches!(
        tokenizer.decode(&tokens),
        Err(TokenizerError::DecodingFailed(_))
    ));
}

#[test]
fn test_gemini_pricing() {
    let tokenizer = GeminiTokenizer::new("gemini-2.5-flash").unwrap();
    assert_eq!(tokenizer.input_price_per_1k(), Some(75));
    assert_eq!(tokenizer.output_price_per_1k(), Some(300));
    let unknown = GeminiTokenizer::new("gemini-unknown").unwrap();
    assert_eq!(unknown.input_price_per_1k(), None);
    assert_eq!(unknown.output_price_per_1k(), None);
}

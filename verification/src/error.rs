//! Error taxonomy: tokenizer errors, model/registry errors, parse errors,
//! and the application-level aggregate. All payloads are plain strings so
//! that every variant can be inspected and matched in verified code.

use vstd::prelude::*;

verus! {

/// Errors that can occur during tokenization.
#[derive(Debug, Clone)]
pub enum TokenizerError {
    /// The tokenizer backend could not be constructed.
    InitializationFailed(String),
    /// The model name is not supported by any backend.
    UnsupportedModel { model: String },
    /// The input was rejected before encoding.
    InvalidInput(String),
    /// The backend rejected the input while encoding.
    EncodingFailed(String),
    /// The backend cannot reconstruct text from these tokens.
    DecodingFailed(String),
    /// A failure specific to the byte-pair-encoding backend.
    OpenAI(String),
}

/// Errors related to the model registry and its configuration.
#[derive(Debug, Clone)]
pub enum ModelError {
    /// No registered model or backend family matches the name.
    ModelNotFound { model: String },
    /// The pricing override document could not be loaded or parsed.
    ConfigLoadFailed(String),
    /// A price in the override document is out of range.
    InvalidPricing(String),
    /// A tokenizer failure during tokenizer construction.
    Tokenizer(TokenizerError),
}

/// Errors that can occur while parsing prompt input.
#[derive(Debug, Clone)]
pub enum ParseError {
    /// The input is not valid JSON.
    InvalidJson(String),
    /// The input does not have the expected shape.
    InvalidFormat(String),
    /// A required field is absent.
    MissingField { field: String },
    /// An input/output failure reported by the caller.
    Io(String),
}

/// Application-level errors: everything the top-level analysis can report.
#[derive(Debug, Clone)]
pub enum AppError {
    Tokenizer(TokenizerError),
    Model(ModelError),
    Parse(ParseError),
    Io(String),
    Http(String),
    Api(String),
    Config(String),
    Json(String),
}

} // verus!

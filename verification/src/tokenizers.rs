//! The tokenizer capability: encode, decode, count, name and pricing,
//! implemented by one backend per provider family and dispatched by the
//! `Tokenizer` type that the registry hands out.

pub mod gemini;
pub mod openai;

pub use gemini::GeminiTokenizer;
pub use openai::OpenAITokenizer;

use vstd::prelude::*;

use crate::error::TokenizerError;
use gemini::approx_tokens;

verus! {

/// A tokenizer for one model: either the exact byte-pair-encoding
/// backend (OpenAI family) or the approximate backend (Gemini family).
pub enum Tokenizer {
    OpenAI(OpenAITokenizer),
    Gemini(GeminiTokenizer),
}

impl Tokenizer {
    /// The token ids this tokenizer produces for `text`, when the
    /// backend accepts the text; the approximate backend accepts
    /// everything.
    pub open spec fn spec_encode(&self, text: Seq<char>) -> Option<Seq<usize>> {
        match self {
            Tokenizer::OpenAI(t) => t.spec_tokens(text),
            Tokenizer::Gemini(_) => Some(approx_tokens(text)),
        }
    }

    /// The number of tokens this tokenizer reports for a text it
    /// accepts: always the length of what it encodes the text to.
    pub open spec fn spec_count(&self, text: Seq<char>) -> nat {
        self.spec_encode(text)->Some_0.len()
    }

    /// The text this tokenizer reconstructs from `tokens`, if any. The
    /// approximate backend reconstructs nothing.
    pub open spec fn spec_decoded(&self, tokens: Seq<usize>) -> Option<Seq<char>> {
        match self {
            Tokenizer::OpenAI(t) => t.spec_decoded(tokens),
            Tokenizer::Gemini(_) => None,
        }
    }

    /// Whether this tokenizer's counts come from a real vocabulary
    /// rather than the character-count heuristic.
    pub open spec fn spec_exact(&self) -> bool {
        self is OpenAI
    }

    /// The model name this tokenizer reports.
    pub open spec fn spec_name(&self) -> Seq<char> {
        match self {
            Tokenizer::OpenAI(t) => t.spec_name(),
            Tokenizer::Gemini(t) => t.spec_name(),
        }
    }

    /// Input price in micro-dollars per 1000 tokens, if known.
    pub open spec fn spec_input_price(&self) -> Option<u64> {
        match self {
            Tokenizer::OpenAI(t) => t.spec_input_price(),
            Tokenizer::Gemini(t) => t.spec_input_price(),
        }
    }

    /// Output price in micro-dollars per 1000 tokens, if known.
    pub open spec fn spec_output_price(&self) -> Option<u64> {
        match self {
            Tokenizer::OpenAI(t) => t.spec_output_price(),
            Tokenizer::Gemini(t) => t.spec_output_price(),
        }
    }

    /// Encode text to token ids. Fails, with `EncodingFailed`, exactly
    /// when the backend rejects the text — never merely for empty
    /// input, which encodes to an empty sequence. On the exact backend
    /// the ids decode back to the original text (round trip).
    pub fn encode(&self, text: &str) -> (r: Result<Vec<usize>, TokenizerError>)
        ensures
            r is Ok <==> self.spec_encode(text@) is Some,
            r is Ok ==> Some(r->Ok_0@) == self.spec_encode(text@),
            r is Ok && self.spec_exact() ==> self.spec_decoded(r->Ok_0@) == Some(text@),
            r is Err ==> r->Err_0 is EncodingFailed,
    {
        match self {
            Tokenizer::OpenAI(t) => t.encode(text),
            Tokenizer::Gemini(t) => t.encode(text),
        }
    }

    /// Reconstruct text from token ids. On the exact backend this fails
    /// exactly when an id is unknown or the bytes are not valid UTF-8;
    /// the approximate backend always fails.
    pub fn decode(&self, tokens: &[usize]) -> (r: Result<String, TokenizerError>)
        ensures
            match r {
                Ok(s) => self.spec_decoded(tokens@) == Some(s@),
                Err(e) => self.spec_decoded(tokens@) is None && e is DecodingFailed,
            },
    {
        match self {
            Tokenizer::OpenAI(t) => t.decode(tokens),
            Tokenizer::Gemini(t) => t.decode(tokens),
        }
    }

    /// The number of tokens in `text`: always equal to the length of
    /// `encode(text)`, on every backend, failing exactly when `encode`
    /// fails.
    pub fn count_tokens(&self, text: &str) -> (r: Result<usize, TokenizerError>)
        ensures
            r is Ok <==> self.spec_encode(text@) is Some,
            r is Ok ==> r->Ok_0 == self.spec_count(text@),
            r is Err ==> r->Err_0 is EncodingFailed,
    {
        match self {
            Tokenizer::OpenAI(t) => t.count_tokens(text),
            Tokenizer::Gemini(t) => t.count_tokens(text),
        }
    }

    /// The model name this tokenizer was built for.
    pub fn name(&self) -> (r: &str)
        ensures
            r@ == self.spec_name(),
    {
        match self {
            Tokenizer::OpenAI(t) => t.name(),
            Tokenizer::Gemini(t) => t.name(),
        }
    }

    /// Input price in micro-dollars per 1000 tokens, if known.
    pub fn input_price_per_1k(&self) -> (r: Option<u64>)
        ensures
            r == self.spec_input_price(),
    {
        match self {
            Tokenizer::OpenAI(t) => t.input_price_per_1k(),
            Tokenizer::Gemini(t) => t.input_price_per_1k(),
        }
    }

    /// Output price in micro-dollars per 1000 tokens, if known.
    pub fn output_price_per_1k(&self) -> (r: Option<u64>)
        ensures
            r == self.spec_output_price(),
    {
        match self {
            Tokenizer::OpenAI(t) => t.output_price_per_1k(),
            Tokenizer::Gemini(t) => t.output_price_per_1k(),
        }
    }

    /// Whether counts from this tokenizer are exact rather than
    /// estimates.
    pub fn is_exact(&self) -> (r: bool)
        ensures
            r == self.spec_exact(),
    {
        match self {
            Tokenizer::OpenAI(_) => true,
            Tokenizer::Gemini(_) => false,
        }
    }
}

} // verus!

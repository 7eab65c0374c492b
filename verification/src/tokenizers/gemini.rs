//! Approximate tokenizer for the Gemini model family. Without a
//! vocabulary backend the count is a deterministic estimate: the
//! character count divided by 4, rounded up. This build links no
//! SentencePiece vocabulary backend, so requesting one fails with an
//! ordinary initialization error.

use vstd::prelude::*;
use vstd::string::*;

use crate::error::TokenizerError;
use crate::strutil::str_eq;

verus! {

/// The approximate token count for `text`: characters divided by 4,
/// rounded up.
pub open spec fn approx_token_count(text: Seq<char>) -> nat {
    ((text.len() + 3) / 4) as nat
}

/// The token sequence the approximate backend reports: one placeholder
/// id per estimated token.
pub open spec fn approx_tokens(text: Seq<char>) -> Seq<usize> {
    Seq::new(approx_token_count(text), |i: int| 1usize)
}

/// Built-in input price for a Gemini model, in micro-dollars per 1000
/// tokens.
pub open spec fn gemini_default_input_price(model: Seq<char>) -> Option<u64> {
    if model == "gemini-2.5-pro"@ || model == "gemini-pro"@ {
        Some(1250u64)
    } else if model == "gemini-2.5-flash"@ || model == "gemini-flash"@ {
        Some(75u64)
    } else {
        None
    }
}

/// Built-in output price for a Gemini model, in micro-dollars per 1000
/// tokens.
pub open spec fn gemini_default_output_price(model: Seq<char>) -> Option<u64> {
    if model == "gemini-2.5-pro"@ || model == "gemini-pro"@ {
        Some(10000u64)
    } else if model == "gemini-2.5-flash"@ || model == "gemini-flash"@ {
        Some(300u64)
    } else {
        None
    }
}

/// An approximate tokenizer for Gemini models: counts are estimates
/// from a character-count heuristic, never exact vocabulary counts.
pub struct GeminiTokenizer {
    model_name: String,
    input_price: Option<u64>,
    output_price: Option<u64>,
}

impl GeminiTokenizer {
    /// The model name this tokenizer reports.
    pub closed spec fn spec_name(&self) -> Seq<char> {
        self.model_name@
    }

    /// Input price in micro-dollars per 1000 tokens, if known.
    pub closed spec fn spec_input_price(&self) -> Option<u64> {
        self.input_price
    }

    /// Output price in micro-dollars per 1000 tokens, if known.
    pub closed spec fn spec_output_price(&self) -> Option<u64> {
        self.output_price
    }

    /// Create an approximate tokenizer for a Gemini model. Never fails;
    /// the built-in price table fills in pricing where the model is
    /// listed there.
    pub fn new(model: &str) -> (r: Result<GeminiTokenizer, TokenizerError>)
        ensures
            r is Ok,
            r->Ok_0.spec_name() == model@,
            r->Ok_0.spec_input_price() == gemini_default_input_price(model@),
            r->Ok_0.spec_output_price() == gemini_default_output_price(model@),
    {
        let input_price: Option<u64>;
        let output_price: Option<u64>;
        if str_eq(model, "gemini-2.5-pro") || str_eq(model, "gemini-pro") {
            input_price = Some(1250);
            output_price = Some(10000);
        } else if str_eq(model, "gemini-2.5-flash") || str_eq(model, "gemini-flash") {
            input_price = Some(75);
            output_price = Some(300);
        } else {
            input_price = None;
            output_price = None;
        }
        Ok(GeminiTokenizer { model_name: model.to_owned(), input_price, output_price })
    }

    /// Create a tokenizer from an explicit vocabulary file. This build
    /// links no vocabulary backend, so the request always fails with an
    /// initialization error.
    pub fn with_model_file(model: &str, model_path: &str) -> (r: Result<
        GeminiTokenizer,
        TokenizerError,
    >)
        ensures
            r is Err,
            r->Err_0 is InitializationFailed,
    {
        let mut msg = String::new();
        msg.append("Failed to load Gemini tokenizer model from '");
        msg.append(model_path);
        msg.append("': no vocabulary backend is available for '");
        msg.append(model);
        msg.append("'");
        Err(TokenizerError::InitializationFailed(msg))
    }

    /// Encode text as placeholder token ids, one per estimated token.
    /// Never fails.
    pub fn encode(&self, text: &str) -> (r: Result<Vec<usize>, TokenizerError>)
        ensures
            r is Ok,
            r->Ok_0@ == approx_tokens(text@),
    {
        let n = text.unicode_len();
        let count = n / 4 + if n % 4 == 0 {
            0usize
        } else {
            1usize
        };
        let mut out: Vec<usize> = Vec::new();
        let mut i: usize = 0;
        while i < count
            invariant
                i <= count,
                out@ =~= Seq::new(i as nat, |j: int| 1usize),
            decreases count - i,
        {
            out.push(1);
            i = i + 1;
        }
        proof {
            assert(count == approx_token_count(text@));
            assert(out@ =~= approx_tokens(text@));
        }
        Ok(out)
    }

    /// The approximation cannot reconstruct text: decoding always fails.
    pub fn decode(&self, tokens: &[usize]) -> (r: Result<String, TokenizerError>)
        ensures
            r is Err,
            r->Err_0 is DecodingFailed,
    {
        Err(
            TokenizerError::DecodingFailed(
                "Decoding requires SentencePiece model file".to_owned(),
            ),
        )
    }

    /// The estimated token count for `text`: the character count
    /// divided by 4, rounded up. Never fails.
    pub fn count_tokens(&self, text: &str) -> (r: Result<usize, TokenizerError>)
        ensures
            r is Ok,
            r->Ok_0 == approx_token_count(text@),
    {
        let n = text.unicode_len();
        Ok(
            n / 4 + if n % 4 == 0 {
                0usize
            } else {
                1usize
            },
        )
    }

    /// The model name this tokenizer was built for.
    pub fn name(&self) -> (r: &str)
        ensures
            r@ == self.spec_name(),
    {
        self.model_name.as_str()
    }

    /// Input price in micro-dollars per 1000 tokens, if known.
    pub fn input_price_per_1k(&self) -> (r: Option<u64>)
        ensures
            r == self.spec_input_price(),
    {
        self.input_price
    }

    /// Output price in micro-dollars per 1000 tokens, if known.
    pub fn output_price_per_1k(&self) -> (r: Option<u64>)
        ensures
            r == self.spec_output_price(),
    {
        self.output_price
    }
}

} // verus!

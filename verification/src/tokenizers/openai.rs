//! Byte-pair-encoding tokenizer for the OpenAI model family, backed by
//! `tiktoken_rs`. The encoder itself is reached through trusted items;
//! everything around it — construction, pricing, counting — is verified.

use vstd::prelude::*;
use vstd::string::*;

use crate::error::TokenizerError;
use crate::strutil::str_eq;
use tiktoken_rs::CoreBPE;

verus! {

#[verifier::external_type_specification]
#[verifier::external_body]
pub struct ExCoreBPE(CoreBPE);

/// The token ids that this encoder produces for the given text, or
/// nothing when its pattern engine gives up on the text. The encoder
/// is deterministic: equal text always encodes to equal ids.
pub uninterp spec fn bpe_tokens(bpe: CoreBPE, text: Seq<char>) -> Option<Seq<usize>>;

/// The text that this encoder reconstructs from the given token ids;
/// nothing when an id is unknown or the bytes are not valid UTF-8.
pub uninterp spec fn bpe_decoded(bpe: CoreBPE, tokens: Seq<usize>) -> Option<Seq<char>>;

/// Whether `tiktoken_rs` knows an encoder for this model name.
pub uninterp spec fn openai_model_known(model: Seq<char>) -> bool;

/// The encoder that `tiktoken_rs` returns for a recognized model name:
/// a singleton, so a deterministic function of the name.
pub uninterp spec fn openai_bpe_of(model: Seq<char>) -> CoreBPE;

/// Relies on tiktoken_rs::bpe_for_model: returns the byte-pair encoder
/// singleton for a recognized model name, and fails for every other
/// name.
#[verifier::external_body]
fn lookup_bpe(model: &str) -> (r: Option<&'static CoreBPE>)
    ensures
        r is Some <==> openai_model_known(model@),
        r is Some ==> *r->Some_0 == openai_bpe_of(model@),
{
    tiktoken_rs::bpe_for_model(model).ok()
}

/// Relies on CoreBPE::encode, with every special token allowed (and
/// CoreBPE::special_tokens to say so): deterministic token ids for the
/// text, or a failure when the tokenizer's pattern engine gives up on
/// the text. The round-trip clause relies on byte-pair encoding being
/// lossless: decoding the ids it just produced yields the original
/// text.
#[verifier::external_body]
fn bpe_encode(bpe: &'static CoreBPE, text: &str) -> (r: Option<Vec<usize>>)
    ensures
        match r {
            Some(v) => bpe_tokens(*bpe, text@) == Some(v@) && bpe_decoded(*bpe, v@) == Some(
                text@,
            ),
            None => bpe_tokens(*bpe, text@) is None,
        },
{
    let allowed = bpe.special_tokens();
    match bpe.encode(text, &allowed) {
        Ok(enc) => Some(enc.0.into_iter().map(|t| t as usize).collect()),
        Err(_) => None,
    }
}

/// Relies on CoreBPE::decode_bytes and String::from_utf8: the text for
/// the given token ids, when every id is known to the encoder and the
/// resulting bytes form valid UTF-8; nothing otherwise.
#[verifier::external_body]
fn bpe_decode(bpe: &'static CoreBPE, tokens: &[usize]) -> (r: Option<String>)
    ensures
        match r {
            Some(s) => bpe_decoded(*bpe, tokens@) == Some(s@),
            None => bpe_decoded(*bpe, tokens@) is None,
        },
{
    let t32: Vec<u32> = tokens.iter().map(|&t| t as u32).collect();
    match bpe.decode_bytes(&t32) {
        Ok(bytes) => String::from_utf8(bytes).ok(),
        Err(_) => None,
    }
}

/// Built-in input price for an OpenAI model, in micro-dollars per 1000
/// tokens.
pub open spec fn openai_default_input_price(model: Seq<char>) -> Option<u64> {
    if model == "gpt-4"@ || model == "gpt-4-0314"@ || model == "gpt-4-32k"@ || model
        == "gpt-4-32k-0314"@ {
        Some(30000u64)
    } else if model == "gpt-4-turbo-preview"@ || model == "gpt-4-turbo"@ || model
        == "gpt-4-0125-preview"@ {
        Some(10000u64)
    } else if model == "gpt-3.5-turbo"@ || model == "gpt-3.5-turbo-0301"@ {
        Some(1500u64)
    } else if model == "gpt-3.5-turbo-16k"@ {
        Some(3000u64)
    } else {
        None
    }
}

/// Built-in output price for an OpenAI model, in micro-dollars per 1000
/// tokens.
pub open spec fn openai_default_output_price(model: Seq<char>) -> Option<u64> {
    if model == "gpt-4"@ || model == "gpt-4-0314"@ || model == "gpt-4-32k"@ || model
        == "gpt-4-32k-0314"@ {
        Some(60000u64)
    } else if model == "gpt-4-turbo-preview"@ || model == "gpt-4-turbo"@ || model
        == "gpt-4-0125-preview"@ {
        Some(30000u64)
    } else if model == "gpt-3.5-turbo"@ || model == "gpt-3.5-turbo-0301"@ {
        Some(2000u64)
    } else if model == "gpt-3.5-turbo-16k"@ {
        Some(4000u64)
    } else {
        None
    }
}

/// An exact tokenizer for OpenAI models, using the model's byte-pair
/// encoding vocabulary.
pub struct OpenAITokenizer {
    bpe: &'static CoreBPE,
    model_name: String,
    input_price: Option<u64>,
    output_price: Option<u64>,
}

impl OpenAITokenizer {
    /// The encoder this tokenizer was built with.
    pub closed spec fn spec_bpe(&self) -> CoreBPE {
        *self.bpe
    }

    /// The model name this tokenizer reports.
    pub closed spec fn spec_name(&self) -> Seq<char> {
        self.model_name@
    }

    /// Input price in micro-dollars per 1000 tokens, if known.
    pub closed spec fn spec_input_price(&self) -> Option<u64> {
        self.input_price
    }

    /// Output price in micro-dollars per 1000 tokens, if known.
    pub closed spec fn spec_output_price(&self) -> Option<u64> {
        self.output_price
    }

    /// The token ids this tokenizer produces for `text`, when the
    /// backend accepts the text.
    pub open spec fn spec_tokens(&self, text: Seq<char>) -> Option<Seq<usize>> {
        bpe_tokens(self.spec_bpe(), text)
    }

    /// The text this tokenizer reconstructs from `tokens`, if any.
    pub open spec fn spec_decoded(&self, tokens: Seq<usize>) -> Option<Seq<char>> {
        bpe_decoded(self.spec_bpe(), tokens)
    }

    /// Create a tokenizer for an OpenAI model. Succeeds exactly for the
    /// model names whose encoder `tiktoken_rs` carries; the built-in
    /// price table fills in pricing where the model is listed there.
    pub fn new(model: &str) -> (r: Result<OpenAITokenizer, TokenizerError>)
        ensures
            r is Ok <==> openai_model_known(model@),
            r is Ok ==> {
                &&& r->Ok_0.spec_bpe() == openai_bpe_of(model@)
                &&& r->Ok_0.spec_name() == model@
                &&& r->Ok_0.spec_input_price() == openai_default_input_price(model@)
                &&& r->Ok_0.spec_output_price() == openai_default_output_price(model@)
            },
            r is Err ==> r->Err_0 is InitializationFailed,
    {
        let bpe = match lookup_bpe(model) {
            Some(b) => b,
            None => {
                let mut msg = String::new();
                msg.append("Failed to initialize tokenizer for model '");
                msg.append(model);
                msg.append("'");
                return Err(TokenizerError::InitializationFailed(msg));
            },
        };
        let input_price: Option<u64>;
        let output_price: Option<u64>;
        if str_eq(model, "gpt-4") || str_eq(model, "gpt-4-0314")
            || str_eq(model, "gpt-4-32k") || str_eq(
            model,
            "gpt-4-32k-0314",
        ) {
            input_price = Some(30000);
            output_price = Some(60000);
        } else if str_eq(model, "gpt-4-turbo-preview") || str_eq(
            model,
            "gpt-4-turbo",
        ) || str_eq(model, "gpt-4-0125-preview") {
            input_price = Some(10000);
            output_price = Some(30000);
        } else if str_eq(model, "gpt-3.5-turbo") || str_eq(
            model,
            "gpt-3.5-turbo-0301",
        ) {
            input_price = Some(1500);
            output_price = Some(2000);
        } else if str_eq(model, "gpt-3.5-turbo-16k") {
            input_price = Some(3000);
            output_price = Some(4000);
        } else {
            input_price = None;
            output_price = None;
        }
        Ok(
            OpenAITokenizer {
                bpe,
                model_name: model.to_owned(),
                input_price,
                output_price,
            },
        )
    }

    /// Encode text to token ids. Fails, with `EncodingFailed`, exactly
    /// when the backend rejects the text — never merely for empty
    /// input. On success the ids decode back to the original text
    /// (byte-pair encoding is lossless).
    pub fn encode(&self, text: &str) -> (r: Result<Vec<usize>, TokenizerError>)
        ensures
            r is Ok <==> self.spec_tokens(text@) is Some,
            r is Ok ==> Some(r->Ok_0@) == self.spec_tokens(text@) && self.spec_decoded(
                r->Ok_0@,
            ) == Some(text@),
            r is Err ==> r->Err_0 is EncodingFailed,
    {
        match bpe_encode(self.bpe, text) {
            Some(v) => Ok(v),
            None => Err(
                TokenizerError::EncodingFailed(
                    "the byte-pair encoder rejected the input text".to_owned(),
                ),
            ),
        }
    }

    /// Reconstruct text from token ids. Fails exactly when an id is
    /// unknown to the encoder or the decoded bytes are not valid UTF-8.
    pub fn decode(&self, tokens: &[usize]) -> (r: Result<String, TokenizerError>)
        ensures
            match r {
                Ok(s) => self.spec_decoded(tokens@) == Some(s@),
                Err(e) => self.spec_decoded(tokens@) is None && e is DecodingFailed,
            },
    {
        match bpe_decode(self.bpe, tokens) {
            Some(s) => Ok(s),
            None => Err(
                TokenizerError::DecodingFailed(
                    "tokens do not decode to text under this model's vocabulary".to_owned(),
                ),
            ),
        }
    }

    /// The number of tokens `text` encodes to: always the length of
    /// `encode(text)`, failing exactly when `encode` fails.
    pub fn count_tokens(&self, text: &str) -> (r: Result<usize, TokenizerError>)
        ensures
            r is Ok <==> self.spec_tokens(text@) is Some,
            r is Ok ==> r->Ok_0 == self.spec_tokens(text@)->Some_0.len(),
            r is Err ==> r->Err_0 is EncodingFailed,
    {
        match bpe_encode(self.bpe, text) {
            Some(tokens) => Ok(tokens.len()),
            None => Err(
                TokenizerError::EncodingFailed(
                    "the byte-pair encoder rejected the input text".to_owned(),
                ),
            ),
        }
    }

    /// The model name this tokenizer was built for.
    pub fn name(&self) -> (r: &str)
        ensures
            r@ == self.spec_name(),
    {
        self.model_name.as_str()
    }

    /// Input price in micro-dollars per 1000 tokens, if known.
    pub fn input_price_per_1k(&self) -> (r: Option<u64>)
        ensures
            r == self.spec_input_price(),
    {
        self.input_price
    }

    /// Output price in micro-dollars per 1000 tokens, if known.
    pub fn output_price_per_1k(&self) -> (r: Option<u64>)
        ensures
            r == self.spec_output_price(),
    {
        self.output_price
    }
}

} // verus!

//! Value objects produced by token accounting, and the formatter
//! handles whose rendering lives outside the library (string building
//! is pure presentation and decides no values).

use vstd::prelude::*;

verus! {

/// Token counts attributed to conversational roles. `total` covers
/// every message; only the three recognized roles have buckets, so
/// `system + user + assistant <= total`.
#[derive(Debug, Clone)]
pub struct TokenBreakdown {
    /// Token count for `system`-role messages.
    pub system: usize,
    /// Token count for `user`-role messages.
    pub user: usize,
    /// Token count for `assistant`-role messages.
    pub assistant: usize,
    /// Total token count over all messages, whatever their role.
    pub total: usize,
}

impl TokenBreakdown {
    /// A breakdown with every count zero.
    pub fn new() -> (r: TokenBreakdown)
        ensures
            r.system == 0 && r.user == 0 && r.assistant == 0 && r.total == 0,
    {
        TokenBreakdown { system: 0, user: 0, assistant: 0, total: 0 }
    }
}

impl Default for TokenBreakdown {
    fn default() -> (r: TokenBreakdown)
        ensures
            r.system == 0 && r.user == 0 && r.assistant == 0 && r.total == 0,
    {
        TokenBreakdown::new()
    }
}

/// Result of one token accounting pass for one model. Costs are in
/// nano-dollars; `None` means pricing was not requested or is unknown.
#[derive(Debug, Clone)]
pub struct TokenResult {
    /// The model name as the caller gave it.
    pub model: String,
    /// Total token count.
    pub tokens: usize,
    /// Cost of the tokens at the model's input price, in nano-dollars.
    pub input_cost: Option<u128>,
    /// Cost of the tokens at the model's output price, in nano-dollars.
    pub output_cost: Option<u128>,
    /// Per-role breakdown, when requested.
    pub breakdown: Option<TokenBreakdown>,
}

/// Cost in nano-dollars of `tokens` tokens at a price in micro-dollars
/// per 1000 tokens. Exact: one micro-dollar per 1000 tokens is one
/// nano-dollar per token.
pub open spec fn cost_nanos_spec(tokens: nat, price_per_1k: nat) -> nat {
    tokens * price_per_1k
}

/// The cost field of a result: present only when pricing was
/// requested and the price is known.
pub open spec fn spec_cost_opt(price: bool, p: Option<u64>, tokens: nat) -> Option<u128> {
    if price {
        match p {
            Some(pp) => Some((tokens * pp) as u128),
            None => None,
        }
    } else {
        None
    }
}

/// Cost of `tokens` tokens at `price_per_1k` micro-dollars per 1000
/// tokens, in nano-dollars.
pub fn cost_nanos(tokens: usize, price_per_1k: u64) -> (c: u128)
    ensures
        c == cost_nanos_spec(tokens as nat, price_per_1k as nat),
{
    proof {
        vstd::arithmetic::mul::lemma_mul_upper_bound(
            tokens as int,
            u64::MAX as int,
            price_per_1k as int,
            u64::MAX as int,
        );
    }
    (tokens as u128) * (price_per_1k as u128)
}

/// Renders results as human-readable text; the string building lives
/// with the caller-facing layer.
pub struct TextFormatter {
    /// Whether the per-role breakdown is included in the rendering.
    pub show_breakdown: bool,
}

impl TextFormatter {
    /// Create a text formatter.
    pub fn new(show_breakdown: bool) -> (r: TextFormatter)
        ensures
            r.show_breakdown == show_breakdown,
    {
        TextFormatter { show_breakdown }
    }
}

/// Renders results as JSON; the string building lives with the
/// caller-facing layer.
pub struct JsonFormatter;

impl JsonFormatter {
    /// Create a JSON formatter.
    pub fn new() -> (r: JsonFormatter) {
        JsonFormatter
    }
}

impl Default for JsonFormatter {
    fn default() -> (r: JsonFormatter) {
        JsonFormatter::new()
    }
}

} // verus!

//! Token usage and cost estimation for large-language-model prompts.
//!
//! The crate counts the tokens a prompt will consume and prices them,
//! per model, without calling any remote API. Prices are carried as
//! integers: micro-dollars per 1000 tokens; computed costs are
//! nano-dollars, so that `cost_in_nanos = tokens * price_per_1k` holds
//! exactly.

pub mod cli;
pub mod error;
pub mod http;
pub mod models;
pub mod output;
pub mod parsers;
pub mod simulator;
pub mod strutil;
pub mod tokenizers;

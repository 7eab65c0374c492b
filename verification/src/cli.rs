//! The command surface as data, and the analysis it drives: model
//! selection, input parsing, per-model token accounting, and the diff
//! mode. Reading input and printing results live outside the library.

use vstd::prelude::*;
use vstd::string::*;

use crate::error::{AppError, ParseError, TokenizerError};
use crate::models::registry::{resolve_alias_spec, ModelRegistry};
use crate::output::{cost_nanos, spec_cost_opt, TokenBreakdown, TokenResult};
use crate::parsers::json::{parse_messages_spec, JsonParser};
use crate::parsers::{
    input_looks_structured, looks_structured, messages_view, Message, MessageView, TextParser,
};
use crate::strutil::{is_prefix_of, str_eq};
use crate::tokenizers::gemini::{
    approx_tokens, gemini_default_input_price, gemini_default_output_price,
};
use crate::tokenizers::openai::{
    bpe_tokens, openai_bpe_of, openai_default_input_price, openai_default_output_price,
    openai_model_known,
};
use crate::tokenizers::Tokenizer;

verus! {

/// Output format options.
#[derive(Debug, Clone)]
pub enum OutputFormat {
    /// Human-readable text output.
    Text,
    /// JSON output for scripting.
    Json,
}

/// One invocation of the analysis: what to read, which models to
/// count for, and which extras were requested.
pub struct Cli {
    /// Input file path, `-` for standard input, or direct text.
    pub input: Option<String>,
    /// Model to use for tokenization.
    pub model: Option<String>,
    /// Models to compare; takes precedence over `model` when
    /// non-empty.
    pub compare: Vec<String>,
    /// Whether to report the per-role breakdown.
    pub breakdown: bool,
    /// Output format.
    pub format: OutputFormat,
    /// Whether to report pricing information.
    pub price: bool,
    /// A second input to diff against, when set.
    pub diff: Option<String>,
    /// Whether to watch the input file and re-run on changes.
    pub watch: bool,
}

/// The messages an input denotes: inputs that look structured go
/// through the JSON parser; everything else is one `user` message.
pub open spec fn parsed_messages(s: Seq<char>) -> Option<Seq<MessageView>> {
    if looks_structured(s) {
        parse_messages_spec(s)
    } else {
        Some(seq![MessageView { role: "user"@, content: s }])
    }
}

/// Parses prompt input, auto-detecting structured chat JSON versus
/// plain text. Fails exactly when a structured-looking input is not
/// valid chat JSON; plain text never fails.
pub fn parse_input(input: &str) -> (r: Result<Vec<Message>, ParseError>)
    ensures
        match r {
            Ok(ms) => parsed_messages(input@) == Some(messages_view(ms@)),
            Err(e) => parsed_messages(input@) is None && e is InvalidFormat,
        },
{
    if input_looks_structured(input) {
        let parser = JsonParser::new();
        parser.parse(input)
    } else {
        let parser = TextParser::new();
        parser.parse(input)
    }
}

/// The token ids the backend family for `resolved` produces for one
/// text: the byte-pair encoder's ids for the exact family, the
/// placeholder estimate otherwise. Nothing when the backend rejects
/// the text.
pub open spec fn backend_tokens(resolved: Seq<char>, text: Seq<char>) -> Option<Seq<usize>> {
    if is_prefix_of("gpt-"@, resolved) || is_prefix_of("text-"@, resolved) {
        bpe_tokens(openai_bpe_of(resolved), text)
    } else {
        Some(approx_tokens(text))
    }
}

/// The token count the backend family for `resolved` reports for a
/// text it accepts.
pub open spec fn backend_count(resolved: Seq<char>, text: Seq<char>) -> nat {
    backend_tokens(resolved, text)->Some_0.len()
}

/// Whether the backend for `resolved` accepts every message's content.
pub open spec fn backend_encodes_all(resolved: Seq<char>, msgs: Seq<MessageView>) -> bool {
    forall|i: int| 0 <= i < msgs.len() ==> backend_tokens(resolved, #[trigger] msgs[i].content) is Some
}

/// Total backend token count over a message sequence.
pub open spec fn backend_sum(resolved: Seq<char>, msgs: Seq<MessageView>) -> nat
    decreases msgs.len(),
{
    if msgs.len() == 0 {
        0
    } else {
        backend_sum(resolved, msgs.drop_last()) + backend_count(resolved, msgs.last().content)
    }
}

/// Backend token count over the messages carrying exactly this role.
pub open spec fn backend_role_sum(resolved: Seq<char>, msgs: Seq<MessageView>, role: Seq<char>) -> nat
    decreases msgs.len(),
{
    if msgs.len() == 0 {
        0
    } else {
        backend_role_sum(resolved, msgs.drop_last(), role) + if msgs.last().role == role {
            backend_count(resolved, msgs.last().content)
        } else {
            0
        }
    }
}

/// The roles with their own breakdown buckets.
pub open spec fn recognized_role(role: Seq<char>) -> bool {
    role == "system"@ || role == "user"@ || role == "assistant"@
}

/// Whether a resolved model name reaches a working backend.
pub open spec fn model_supported(resolved: Seq<char>) -> bool {
    if is_prefix_of("gpt-"@, resolved) || is_prefix_of("text-"@, resolved) {
        openai_model_known(resolved)
    } else {
        is_prefix_of("gemini-"@, resolved)
    }
}

/// The input price of the backend for `resolved`, in micro-dollars per
/// 1000 tokens.
pub open spec fn backend_input_price(resolved: Seq<char>) -> Option<u64> {
    if is_prefix_of("gpt-"@, resolved) || is_prefix_of("text-"@, resolved) {
        openai_default_input_price(resolved)
    } else {
        gemini_default_input_price(resolved)
    }
}

/// The output price of the backend for `resolved`, in micro-dollars
/// per 1000 tokens.
pub open spec fn backend_output_price(resolved: Seq<char>) -> Option<u64> {
    if is_prefix_of("gpt-"@, resolved) || is_prefix_of("text-"@, resolved) {
        openai_default_output_price(resolved)
    } else {
        gemini_default_output_price(resolved)
    }
}

/// Whether a constructed tokenizer is the backend that `resolved`
/// names.
pub open spec fn tokenizer_matches(t: Tokenizer, resolved: Seq<char>) -> bool {
    if is_prefix_of("gpt-"@, resolved) || is_prefix_of("text-"@, resolved) {
        t is OpenAI && t->OpenAI_0.spec_bpe() == openai_bpe_of(resolved)
    } else {
        t is Gemini
    }
}

/// Whether one tokenizer accepts every message's content.
pub open spec fn encodes_all(t: Tokenizer, msgs: Seq<MessageView>) -> bool {
    forall|i: int| 0 <= i < msgs.len() ==> t.spec_encode(#[trigger] msgs[i].content) is Some
}

/// Total token count over a message sequence under one tokenizer.
pub open spec fn sum_counts(t: Tokenizer, msgs: Seq<MessageView>) -> nat
    decreases msgs.len(),
{
    if msgs.len() == 0 {
        0
    } else {
        sum_counts(t, msgs.drop_last()) + t.spec_count(msgs.last().content)
    }
}

/// Token count over the messages carrying exactly this role, under
/// one tokenizer.
pub open spec fn role_sum(t: Tokenizer, msgs: Seq<MessageView>, role: Seq<char>) -> nat
    decreases msgs.len(),
{
    if msgs.len() == 0 {
        0
    } else {
        role_sum(t, msgs.drop_last(), role) + if msgs.last().role == role {
            t.spec_count(msgs.last().content)
        } else {
            0
        }
    }
}

/// A tokenizer that matches a resolved name counts exactly as that
/// name's backend.
proof fn lemma_sums_congruent(t: Tokenizer, resolved: Seq<char>, msgs: Seq<MessageView>, role: Seq<char>)
    requires
        tokenizer_matches(t, resolved),
    ensures
        sum_counts(t, msgs) == backend_sum(resolved, msgs),
        role_sum(t, msgs, role) == backend_role_sum(resolved, msgs, role),
        encodes_all(t, msgs) <==> backend_encodes_all(resolved, msgs),
    decreases msgs.len(),
{
    if msgs.len() > 0 {
        lemma_sums_congruent(t, resolved, msgs.drop_last(), role);
    }
    assert forall|i: int| 0 <= i < msgs.len() implies t.spec_encode(#[trigger] msgs[i].content)
        == backend_tokens(resolved, msgs[i].content) by {}
    if encodes_all(t, msgs) {
        assert forall|i: int|
            0 <= i < msgs.len() implies backend_tokens(
            resolved,
            #[trigger] msgs[i].content,
        ) is Some by {
            assert(t.spec_encode(msgs[i].content) is Some);
        }
    }
    if backend_encodes_all(resolved, msgs) {
        assert forall|i: int|
            0 <= i < msgs.len() implies t.spec_encode(#[trigger] msgs[i].content) is Some by {
            assert(backend_tokens(resolved, msgs[i].content) is Some);
        }
    }
}

proof fn lemma_sum_counts_step(t: Tokenizer, msgs: Seq<MessageView>, i: int)
    requires
        0 <= i < msgs.len(),
    ensures
        sum_counts(t, msgs.subrange(0, i + 1)) == sum_counts(t, msgs.subrange(0, i))
            + t.spec_count(msgs[i].content),
        forall|role: Seq<char>|
            #[trigger] role_sum(t, msgs.subrange(0, i + 1), role) == role_sum(
                t,
                msgs.subrange(0, i),
                role,
            ) + if msgs[i].role == role {
                t.spec_count(msgs[i].content)
            } else {
                0
            },
{
    let p = msgs.subrange(0, i + 1);
    assert(p.drop_last() =~= msgs.subrange(0, i));
    assert(p.last() == msgs[i]);
}

proof fn lemma_sum_counts_mono(t: Tokenizer, msgs: Seq<MessageView>, i: int)
    requires
        0 <= i <= msgs.len(),
    ensures
        sum_counts(t, msgs) >= sum_counts(t, msgs.subrange(0, i)),
    decreases msgs.len() - i,
{
    if i < msgs.len() {
        lemma_sum_counts_step(t, msgs, i);
        lemma_sum_counts_mono(t, msgs, i + 1);
    } else {
        assert(msgs.subrange(0, i) =~= msgs);
    }
}

/// The three recognized role names are pairwise distinct.
proof fn lemma_distinct_roles()
    ensures
        "system"@ != "user"@,
        "system"@ != "assistant"@,
        "user"@ != "assistant"@,
{
    reveal_strlit("system");
    reveal_strlit("user");
    reveal_strlit("assistant");
    assert("system"@.len() == 6);
    assert("user"@.len() == 4);
    assert("assistant"@.len() == 9);
}

/// The role buckets never exceed the total. When every message's role
/// is recognized the three buckets add up to the total exactly; the
/// converse holds as soon as no message counts zero tokens.
pub proof fn lemma_breakdown_bounds(t: Tokenizer, msgs: Seq<MessageView>)
    ensures
        role_sum(t, msgs, "system"@) + role_sum(t, msgs, "user"@) + role_sum(t, msgs, "assistant"@)
            <= sum_counts(t, msgs),
        (forall|i: int| 0 <= i < msgs.len() ==> recognized_role(#[trigger] msgs[i].role)) ==> role_sum(
            t,
            msgs,
            "system"@,
        ) + role_sum(t, msgs, "user"@) + role_sum(t, msgs, "assistant"@) == sum_counts(t, msgs),
        (forall|i: int| 0 <= i < msgs.len() ==> t.spec_count(#[trigger] msgs[i].content) > 0)
            ==> ((role_sum(t, msgs, "system"@) + role_sum(t, msgs, "user"@) + role_sum(
            t,
            msgs,
            "assistant"@,
        ) == sum_counts(t, msgs)) <==> (forall|i: int|
            0 <= i < msgs.len() ==> recognized_role(#[trigger] msgs[i].role))),
    decreases msgs.len(),
{
    lemma_distinct_roles();
    if msgs.len() > 0 {
        lemma_breakdown_bounds(t, msgs.drop_last());
        assert(forall|i: int| 0 <= i < msgs.drop_last().len() ==> msgs.drop_last()[i] == msgs[i]);
        let last = msgs.last();
        if !recognized_role(last.role) && t.spec_count(last.content) > 0 {
            assert(role_sum(t, msgs, "system"@) + role_sum(t, msgs, "user"@) + role_sum(
                t,
                msgs,
                "assistant"@,
            ) < sum_counts(t, msgs));
        }
    }
}

/// What one accounting result must look like for one model.
pub open spec fn result_matches(
    res: TokenResult,
    model: Seq<char>,
    ms: Seq<MessageView>,
    breakdown: bool,
    price: bool,
) -> bool {
    let resolved = resolve_alias_spec(model);
    &&& res.model@ == model
    &&& backend_encodes_all(resolved, ms)
    &&& backend_sum(resolved, ms) <= usize::MAX
    &&& res.tokens == backend_sum(resolved, ms)
    &&& res.input_cost == spec_cost_opt(price, backend_input_price(resolved), backend_sum(resolved, ms))
    &&& res.output_cost == spec_cost_opt(
        price,
        backend_output_price(resolved),
        backend_sum(resolved, ms),
    )
    &&& match res.breakdown {
        Some(bd) => {
            &&& breakdown
            &&& bd.total == backend_sum(resolved, ms)
            &&& bd.system == backend_role_sum(resolved, ms, "system"@)
            &&& bd.user == backend_role_sum(resolved, ms, "user"@)
            &&& bd.assistant == backend_role_sum(resolved, ms, "assistant"@)
        },
        None => !breakdown,
    }
}

/// Result of one diff pass: token counts of both inputs under one
/// model, their signed difference, and the absolute cost difference
/// when pricing applies.
pub struct DiffResult {
    /// The model the diff ran under.
    pub model: String,
    /// Token count of the baseline input.
    pub original_tokens: usize,
    /// Token count of the modified input.
    pub modified_tokens: usize,
    /// Signed token difference: modified minus baseline.
    pub delta: i128,
    /// Absolute input-cost difference in nano-dollars, when pricing
    /// was requested and the model is priced.
    pub cost_delta_nanos: Option<u128>,
}

/// The signed token delta a diff reports: modified minus baseline.
pub open spec fn diff_delta_spec(
    resolved: Seq<char>,
    base: Seq<MessageView>,
    modified: Seq<MessageView>,
) -> int {
    backend_sum(resolved, modified) - backend_sum(resolved, base)
}

/// The absolute difference of two naturals.
pub open spec fn abs_diff(a: nat, b: nat) -> nat {
    if a >= b {
        (a - b) as nat
    } else {
        (b - a) as nat
    }
}

/// The absolute input-cost difference a diff reports, at `p`
/// micro-dollars per 1000 tokens, in nano-dollars.
pub open spec fn diff_cost_spec(
    resolved: Seq<char>,
    base: Seq<MessageView>,
    modified: Seq<MessageView>,
    p: u64,
) -> nat {
    abs_diff(backend_sum(resolved, base) * (p as nat), backend_sum(resolved, modified) * (p as nat))
}

/// Diff results are antisymmetric: swapping baseline and modified
/// negates the token delta and keeps the absolute cost difference.
pub proof fn lemma_diff_antisymmetric(
    resolved: Seq<char>,
    a: Seq<MessageView>,
    b: Seq<MessageView>,
    p: u64,
)
    ensures
        diff_delta_spec(resolved, a, b) == -diff_delta_spec(resolved, b, a),
        diff_cost_spec(resolved, a, b, p) == diff_cost_spec(resolved, b, a, p),
{
}

impl Cli {
    /// The models one invocation asks about: the comparison list when
    /// non-empty, else the single model, else nothing.
    pub open spec fn selected_models(&self) -> Option<Seq<Seq<char>>> {
        if self.compare@.len() > 0 {
            Some(self.compare@.map_values(|s: String| s@))
        } else {
            match self.model {
                Some(m) => Some(seq![m@]),
                None => None,
            }
        }
    }

    /// The models to run, or the error that no model was specified.
    pub fn models_to_check(&self) -> (r: Result<Vec<String>, AppError>)
        ensures
            match r {
                Ok(v) => self.selected_models() == Some(v@.map_values(|s: String| s@)),
                Err(e) => self.selected_models() is None && e is Parse,
            },
    {
        if self.compare.len() > 0 {
            let n = self.compare.len();
            let mut out: Vec<String> = Vec::new();
            let mut i: usize = 0;
            while i < n
                invariant
                    i <= n,
                    n == self.compare@.len(),
                    out@.len() == i,
                    forall|j: int| 0 <= j < i ==> #[trigger] out@[j]@ == self.compare@[j]@,
                decreases n - i,
            {
                out.push(self.compare[i].clone());
                i = i + 1;
            }
            proof {
                assert(out@.map_values(|s: String| s@) =~= self.compare@.map_values(
                    |s: String| s@,
                ));
            }
            Ok(out)
        } else {
            match &self.model {
                Some(m) => {
                    let v = vec![m.clone()];
                    proof {
                        assert(v@.map_values(|s: String| s@) =~= seq![self.model->Some_0@]);
                    }
                    Ok(v)
                },
                None => Err(
                    AppError::Parse(
                        ParseError::InvalidFormat(
                            "No model specified. Use --model or --compare".to_owned(),
                        ),
                    ),
                ),
            }
        }
    }

    /// Count tokens for a message sequence under one tokenizer: the
    /// total is the sum of per-message counts; the breakdown, when
    /// requested, buckets them by recognized role; costs are computed
    /// only when requested and priced. Fails exactly when the backend
    /// rejects some message or the total does not fit in `usize`.
    pub fn count_tokens(
        tokenizer: &Tokenizer,
        messages: &Vec<Message>,
        model_name: &str,
        breakdown: bool,
        price: bool,
    ) -> (r: Result<TokenResult, AppError>)
        ensures
            ({
                let ms = messages_view(messages@);
                let t = *tokenizer;
                match r {
                    Ok(res) => {
                        &&& encodes_all(t, ms)
                        &&& sum_counts(t, ms) <= usize::MAX
                        &&& res.tokens == sum_counts(t, ms)
                        &&& res.model@ == model_name@
                        &&& res.input_cost == spec_cost_opt(
                            price,
                            t.spec_input_price(),
                            sum_counts(t, ms),
                        )
                        &&& res.output_cost == spec_cost_opt(
                            price,
                            t.spec_output_price(),
                            sum_counts(t, ms),
                        )
                        &&& match res.breakdown {
                            Some(bd) => {
                                &&& breakdown
                                &&& bd.total == sum_counts(t, ms)
                                &&& bd.system == role_sum(t, ms, "system"@)
                                &&& bd.user == role_sum(t, ms, "user"@)
                                &&& bd.assistant == role_sum(t, ms, "assistant"@)
                            },
                            None => !breakdown,
                        }
                    },
                    Err(e) => e is Tokenizer && (!encodes_all(t, ms) || sum_counts(t, ms)
                        > usize::MAX),
                }
            }),
    {
        let ghost ms = messages_view(messages@);
        let ghost t = *tokenizer;
        let n = messages.len();
        let mut total: usize = 0;
        let mut sys: usize = 0;
        let mut usr: usize = 0;
        let mut asst: usize = 0;
        let mut i: usize = 0;
        while i < n
            invariant
                i <= n,
                n == messages@.len(),
                ms == messages_view(messages@),
                t == *tokenizer,
                total == sum_counts(t, ms.subrange(0, i as int)),
                sys == role_sum(t, ms.subrange(0, i as int), "system"@),
                usr == role_sum(t, ms.subrange(0, i as int), "user"@),
                asst == role_sum(t, ms.subrange(0, i as int), "assistant"@),
                sys <= total,
                usr <= total,
                asst <= total,
                forall|j: int| 0 <= j < i ==> t.spec_encode(#[trigger] ms[j].content) is Some,
            decreases n - i,
        {
            let m = &messages[i];
            proof {
                assert(ms[i as int] == messages@[i as int]@);
            }
            let count = match tokenizer.count_tokens(m.content.as_str()) {
                Ok(c) => c,
                Err(e) => {
                    proof {
                        assert(t.spec_encode(ms[i as int].content) is None);
                    }
                    return Err(AppError::Tokenizer(e));
                },
            };
            proof {
                lemma_sum_counts_step(t, ms, i as int);
            }
            let new_total = match total.checked_add(count) {
                Some(x) => x,
                None => {
                    proof {
                        lemma_sum_counts_mono(t, ms, i as int + 1);
                    }
                    return Err(
                        AppError::Tokenizer(
                            TokenizerError::InvalidInput(
                                "token count exceeds the machine limit".to_owned(),
                            ),
                        ),
                    );
                },
            };
            total = new_total;
            if str_eq(m.role.as_str(), "system") {
                sys = sys + count;
            } else if str_eq(m.role.as_str(), "user") {
                usr = usr + count;
            } else if str_eq(m.role.as_str(), "assistant") {
                asst = asst + count;
            }
            proof {
                lemma_distinct_roles();
            }
            i = i + 1;
        }
        proof {
            assert(ms.subrange(0, n as int) =~= ms);
        }
        let token_breakdown = if breakdown {
            Some(TokenBreakdown { system: sys, user: usr, assistant: asst, total })
        } else {
            None
        };
        let input_cost = if price {
            match tokenizer.input_price_per_1k() {
                Some(p) => Some(cost_nanos(total, p)),
                None => None,
            }
        } else {
            None
        };
        let output_cost = if price {
            match tokenizer.output_price_per_1k() {
                Some(p) => Some(cost_nanos(total, p)),
                None => None,
            }
        } else {
            None
        };
        Ok(
            TokenResult {
                model: model_name.to_owned(),
                tokens: total,
                input_cost,
                output_cost,
                breakdown: token_breakdown,
            },
        )
    }

    /// Run the whole analysis: select models, parse the input, and
    /// produce one accounting result per model, in order. Fails when
    /// no model was specified, the input is malformed chat JSON, a
    /// model reaches no backend, a backend rejects a message, or a
    /// count does not fit.
    pub fn analyze(&self, input: &str) -> (r: Result<Vec<TokenResult>, AppError>)
        ensures
            ({
                let models = self.selected_models()->Some_0;
                let ms = parsed_messages(input@)->Some_0;
                match r {
                    Ok(results) => {
                        &&& self.selected_models() is Some
                        &&& parsed_messages(input@) is Some
                        &&& results@.len() == models.len()
                        &&& forall|i: int|
                            0 <= i < models.len() ==> result_matches(
                                #[trigger] results@[i],
                                models[i],
                                ms,
                                self.breakdown,
                                self.price,
                            )
                    },
                    Err(e) => {
                        ||| (self.selected_models() is None && e is Parse)
                        ||| (self.selected_models() is Some && parsed_messages(input@) is None
                            && e is Parse)
                        ||| (self.selected_models() is Some && parsed_messages(input@) is Some
                            && e is Model && exists|i: int|
                            0 <= i < models.len() && !model_supported(
                                resolve_alias_spec(#[trigger] models[i]),
                            ))
                        ||| (self.selected_models() is Some && parsed_messages(input@) is Some
                            && e is Tokenizer && exists|i: int|
                            0 <= i < models.len() && (!backend_encodes_all(
                                resolve_alias_spec(#[trigger] models[i]),
                                ms,
                            ) || backend_sum(resolve_alias_spec(models[i]), ms) > usize::MAX))
                    },
                }
            }),
    {
        let registry = ModelRegistry::new();
        let models = match self.models_to_check() {
            Ok(v) => v,
            Err(e) => {
                return Err(e);
            },
        };
        let messages = match parse_input(input) {
            Ok(ms) => ms,
            Err(e) => {
                return Err(AppError::Parse(e));
            },
        };
        let ghost models_spec = self.selected_models()->Some_0;
        let ghost ms = parsed_messages(input@)->Some_0;
        let n = models.len();
        let mut results: Vec<TokenResult> = Vec::new();
        let mut i: usize = 0;
        while i < n
            invariant
                i <= n,
                n == models@.len(),
                self.selected_models() is Some,
                models_spec == self.selected_models()->Some_0,
                models_spec == models@.map_values(|s: String| s@),
                parsed_messages(input@) is Some,
                ms == parsed_messages(input@)->Some_0,
                ms == messages_view(messages@),
                results@.len() == i,
                forall|j: int|
                    0 <= j < i ==> result_matches(
                        #[trigger] results@[j],
                        models_spec[j],
                        ms,
                        self.breakdown,
                        self.price,
                    ),
            decreases n - i,
        {
            let ghost resolved = resolve_alias_spec(models_spec[i as int]);
            let model_name = &models[i];
            let tokenizer = match registry.get_tokenizer(model_name.as_str()) {
                Ok(t) => t,
                Err(e) => {
                    proof {
                        assert(!model_supported(resolved));
                    }
                    return Err(AppError::Model(e));
                },
            };
            proof {
                assert(tokenizer_matches(tokenizer, resolved));
                lemma_sums_congruent(tokenizer, resolved, ms, "system"@);
                lemma_sums_congruent(tokenizer, resolved, ms, "user"@);
                lemma_sums_congruent(tokenizer, resolved, ms, "assistant"@);
            }
            let result = match Self::count_tokens(
                &tokenizer,
                &messages,
                model_name.as_str(),
                self.breakdown,
                self.price,
            ) {
                Ok(res) => res,
                Err(e) => {
                    return Err(e);
                },
            };
            results.push(result);
            i = i + 1;
        }
        Ok(results)
    }

    /// Compare two inputs under one model: count both, report the
    /// signed token difference and, when pricing applies, the absolute
    /// input-cost difference. Requires exactly one explicit model.
    pub fn diff_inputs(&self, input1: &str, input2: &str) -> (r: Result<DiffResult, AppError>)
        ensures
            ({
                let resolved = resolve_alias_spec(self.model->Some_0@);
                let ms1 = parsed_messages(input1@)->Some_0;
                let ms2 = parsed_messages(input2@)->Some_0;
                match r {
                    Ok(d) => {
                        &&& self.model is Some
                        &&& model_supported(resolved)
                        &&& parsed_messages(input1@) is Some
                        &&& parsed_messages(input2@) is Some
                        &&& backend_sum(resolved, ms1) <= usize::MAX
                        &&& backend_sum(resolved, ms2) <= usize::MAX
                        &&& backend_encodes_all(resolved, ms1)
                        &&& backend_encodes_all(resolved, ms2)
                        &&& d.model@ == self.model->Some_0@
                        &&& d.original_tokens == backend_sum(resolved, ms1)
                        &&& d.modified_tokens == backend_sum(resolved, ms2)
                        &&& d.delta == diff_delta_spec(resolved, ms1, ms2)
                        &&& d.cost_delta_nanos == match (self.price, backend_input_price(
                            resolved,
                        )) {
                            (true, Some(p)) => Some(diff_cost_spec(resolved, ms1, ms2, p) as u128),
                            _ => None,
                        }
                    },
                    Err(e) => {
                        ||| (self.model is None && e is Parse)
                        ||| (self.model is Some && !model_supported(resolved) && e is Model)
                        ||| (self.model is Some && parsed_messages(input1@) is None && e is Parse)
                        ||| (self.model is Some && parsed_messages(input2@) is None && e is Parse)
                        ||| (self.model is Some && e is Tokenizer && (!backend_encodes_all(
                            resolved,
                            ms1,
                        ) || !backend_encodes_all(resolved, ms2) || backend_sum(resolved, ms1)
                            > usize::MAX || backend_sum(resolved, ms2) > usize::MAX))
                    },
                }
            }),
    {
        let registry = ModelRegistry::new();
        let model = match &self.model {
            Some(m) => m,
            None => {
                return Err(
                    AppError::Parse(
                        ParseError::InvalidFormat(
                            "Model required for diff mode. Use --model".to_owned(),
                        ),
                    ),
                );
            },
        };
        let ghost resolved = resolve_alias_spec(model@);
        let tokenizer = match registry.get_tokenizer(model.as_str()) {
            Ok(t) => t,
            Err(e) => {
                return Err(AppError::Model(e));
            },
        };
        let messages1 = match parse_input(input1) {
            Ok(v) => v,
            Err(e) => {
                return Err(AppError::Parse(e));
            },
        };
        let messages2 = match parse_input(input2) {
            Ok(v) => v,
            Err(e) => {
                return Err(AppError::Parse(e));
            },
        };
        proof {
            assert(tokenizer_matches(tokenizer, resolved));
            lemma_sums_congruent(tokenizer, resolved, messages_view(messages1@), "user"@);
            lemma_sums_congruent(tokenizer, resolved, messages_view(messages2@), "user"@);
        }
        let result1 = match Self::count_tokens(&tokenizer, &messages1, model.as_str(), false, self.price) {
            Ok(x) => x,
            Err(e) => {
                return Err(e);
            },
        };
        let result2 = match Self::count_tokens(&tokenizer, &messages2, model.as_str(), false, self.price) {
            Ok(x) => x,
            Err(e) => {
                return Err(e);
            },
        };
        let delta: i128 = (result2.tokens as i128) - (result1.tokens as i128);
        let cost_delta_nanos: Option<u128> = match (result1.input_cost, result2.input_cost) {
            (Some(c1), Some(c2)) => Some(
                if c2 >= c1 {
                    c2 - c1
                } else {
                    c1 - c2
                },
            ),
            _ => None,
        };
        Ok(
            DiffResult {
                model: model.clone(),
                original_tokens: result1.tokens,
                modified_tokens: result2.tokens,
                delta,
                cost_delta_nanos,
            },
        )
    }
}

} // verus!

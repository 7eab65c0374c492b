//! The model registry: the catalog of known (provider, model, price)
//! triples, alias resolution, pricing overrides, and tokenizer
//! construction.
//!
//! Each registered model is stored under three keys at once: the bare
//! model name, `provider/model`, and the lowercased bare name. The
//! catalog is modelled as a `Map` from key to record; re-registering a
//! key overwrites the record, which is how overrides take precedence.

use vstd::prelude::*;
use vstd::string::*;

use crate::error::{ModelError, TokenizerError};
use crate::models::pricing::PricingConfig;
use crate::strutil::{find_last, is_prefix_of, lower_seq, str_eq, str_starts_with, ascii_lower};
use crate::tokenizers::gemini::{
    gemini_default_input_price, gemini_default_output_price, GeminiTokenizer,
};
use crate::tokenizers::openai::{
    openai_default_input_price, openai_default_output_price, openai_model_known, OpenAITokenizer,
};
use crate::tokenizers::Tokenizer;

verus! {

/// Information about a model: its provider, name, and prices in
/// micro-dollars per 1000 tokens. Replaced wholesale on override,
/// never mutated field by field.
#[derive(Debug, Clone)]
pub struct ModelInfo {
    /// The provider name (e.g., "openai", "google").
    pub provider: String,
    /// The model name/identifier.
    pub model: String,
    /// Input price in micro-dollars per 1000 tokens.
    pub input_price: Option<u64>,
    /// Output price in micro-dollars per 1000 tokens.
    pub output_price: Option<u64>,
}

/// The mathematical value of a `ModelInfo`.
pub ghost struct ModelInfoView {
    pub provider: Seq<char>,
    pub model: Seq<char>,
    pub input_price: Option<u64>,
    pub output_price: Option<u64>,
}

impl View for ModelInfo {
    type V = ModelInfoView;

    open spec fn view(&self) -> ModelInfoView {
        ModelInfoView {
            provider: self.provider@,
            model: self.model@,
            input_price: self.input_price,
            output_price: self.output_price,
        }
    }
}

impl ModelInfo {
    /// A copy that provably carries the same value.
    fn duplicate(&self) -> (r: ModelInfo)
        ensures
            r@ == self@,
    {
        ModelInfo {
            provider: self.provider.clone(),
            model: self.model.clone(),
            input_price: self.input_price,
            output_price: self.output_price,
        }
    }
}

/// The catalog that an association list denotes: later entries win.
pub open spec fn assoc_map(s: Seq<(String, ModelInfo)>) -> Map<Seq<char>, ModelInfoView>
    decreases s.len(),
{
    if s.len() == 0 {
        Map::empty()
    } else {
        assoc_map(s.drop_last()).insert(s.last().0@, s.last().1@)
    }
}

/// The name part after the last `/`, or the whole name when it has no
/// `/`.
pub open spec fn suffix_after_last_slash(s: Seq<char>) -> Seq<char>
    decreases s.len(),
{
    if s.len() == 0 {
        s
    } else if s.last() == '/' {
        Seq::empty()
    } else {
        suffix_after_last_slash(s.drop_last()).push(s.last())
    }
}

proof fn lemma_suffix_after_last_slash(s: Seq<char>, i: int)
    requires
        0 <= i < s.len(),
        s[i] == '/',
        forall|j: int| i < j < s.len() ==> s[j] != '/',
    ensures
        suffix_after_last_slash(s) =~= s.subrange(i + 1, s.len() as int),
    decreases s.len(),
{
    if i == s.len() - 1 {
    } else {
        lemma_suffix_after_last_slash(s.drop_last(), i);
        assert(s.drop_last().subrange(i + 1, s.len() - 1) =~= s.subrange(i + 1, s.len() - 1));
    }
}

proof fn lemma_suffix_no_slash(s: Seq<char>)
    requires
        forall|j: int| 0 <= j < s.len() ==> s[j] != '/',
    ensures
        suffix_after_last_slash(s) =~= s,
    decreases s.len(),
{
    if s.len() > 0 {
        lemma_suffix_no_slash(s.drop_last());
    }
}

/// The part after the last slash contains no slash itself.
proof fn lemma_suffix_result_no_slash(s: Seq<char>)
    ensures
        forall|j: int|
            0 <= j < suffix_after_last_slash(s).len() ==> suffix_after_last_slash(s)[j] != '/',
    decreases s.len(),
{
    if s.len() > 0 && s.last() != '/' {
        lemma_suffix_result_no_slash(s.drop_last());
        let pre = suffix_after_last_slash(s.drop_last());
        assert forall|j: int|
            0 <= j < suffix_after_last_slash(s).len() implies suffix_after_last_slash(s)[j]
            != '/' by {
            assert(suffix_after_last_slash(s) == pre.push(s.last()));
            if j < pre.len() {
                assert(pre.push(s.last())[j] == pre[j]);
            } else {
                assert(pre.push(s.last())[j] == s.last());
            }
        }
    }
}

/// Alias resolution: strip any `provider/` prefix, then apply the fixed
/// equivalence table.
pub open spec fn resolve_alias_spec(name: Seq<char>) -> Seq<char> {
    let base = suffix_after_last_slash(name);
    if base == "gpt-4-turbo"@ || base == "gpt-4-turbo-preview"@ {
        "gpt-4-turbo-preview"@
    } else {
        base
    }
}

/// Alias resolution is idempotent: resolving an already-resolved name
/// returns it unchanged.
pub proof fn lemma_resolve_alias_idempotent(name: Seq<char>)
    ensures
        resolve_alias_spec(resolve_alias_spec(name)) == resolve_alias_spec(name),
{
    lemma_suffix_result_no_slash(name);
    let base = suffix_after_last_slash(name);
    if base == "gpt-4-turbo"@ || base == "gpt-4-turbo-preview"@ {
        let canon = "gpt-4-turbo-preview"@;
        assert(forall|j: int| 0 <= j < canon.len() ==> canon[j] != '/') by {
            reveal_strlit("gpt-4-turbo-preview");
            assert(canon.len() == 19);
        }
        lemma_suffix_no_slash(canon);
    } else {
        lemma_suffix_no_slash(base);
    }
}

/// How one lookup walks the catalog: the raw name first, then the
/// resolved alias, then the lowercased alias (case-insensitivity).
pub open spec fn spec_lookup(m: Map<Seq<char>, ModelInfoView>, name: Seq<char>) -> Option<
    ModelInfoView,
> {
    if m.contains_key(name) {
        Some(m[name])
    } else if m.contains_key(resolve_alias_spec(name)) {
        Some(m[resolve_alias_spec(name)])
    } else if m.contains_key(lower_seq(resolve_alias_spec(name))) {
        Some(m[lower_seq(resolve_alias_spec(name))])
    } else {
        None
    }
}

/// What registering one model does to the catalog: the record is
/// written under the bare name, `provider/model`, and the lowercased
/// bare name.
pub open spec fn upsert_keys(
    m: Map<Seq<char>, ModelInfoView>,
    provider: Seq<char>,
    model: Seq<char>,
    input_price: Option<u64>,
    output_price: Option<u64>,
) -> Map<Seq<char>, ModelInfoView> {
    let info = ModelInfoView { provider, model, input_price, output_price };
    m.insert(model, info).insert(provider.push('/') + model, info).insert(lower_seq(model), info)
}

/// The built-in catalog that `ModelRegistry::new` constructs.
pub open spec fn default_models_map() -> Map<Seq<char>, ModelInfoView> {
    let m0 = Map::empty();
    let m1 = upsert_keys(m0, "openai"@, "gpt-4"@, Some(30000u64), Some(60000u64));
    let m2 = upsert_keys(m1, "openai"@, "gpt-4-turbo"@, Some(10000u64), Some(30000u64));
    let m3 = upsert_keys(m2, "openai"@, "gpt-3.5-turbo"@, Some(1500u64), Some(2000u64));
    let m4 = upsert_keys(m3, "google"@, "gemini-pro"@, Some(1250u64), Some(10000u64));
    let m5 = upsert_keys(m4, "google"@, "gemini-2.5-pro"@, Some(1250u64), Some(10000u64));
    upsert_keys(m5, "google"@, "gemini-2.5-flash"@, Some(75u64), Some(300u64))
}

/// Registry of models: a catalog keyed by name, with alias resolution
/// and pricing override support.
pub struct ModelRegistry {
    models: Vec<(String, ModelInfo)>,
}

impl ModelRegistry {
    /// The catalog this registry holds.
    pub closed spec fn spec_models(&self) -> Map<Seq<char>, ModelInfoView> {
        assoc_map(self.models@)
    }

    /// Well-formed: no key is stored twice.
    pub closed spec fn wf(&self) -> bool {
        forall|i: int, j: int|
            0 <= i < j < self.models@.len() ==> self.models@[i].0@ != self.models@[j].0@
    }

    /// Create a registry holding the built-in default models.
    pub fn new() -> (r: ModelRegistry)
        ensures
            r.wf(),
            r.spec_models() == default_models_map(),
    {
        let mut registry = ModelRegistry { models: Vec::new() };
        proof {
            assert(registry.spec_models() =~= Map::<Seq<char>, ModelInfoView>::empty());
        }
        registry.register_default_models();
        registry
    }

    /// Create a registry with defaults, then fold in the pricing
    /// override document if one is given. Fails, registering nothing,
    /// when the document does not parse.
    pub fn new_with_pricing(pricing_doc: Option<&str>) -> (r: Result<ModelRegistry, ModelError>)
        ensures
            match r {
                Ok(reg) => {
                    &&& reg.wf()
                    &&& match pricing_doc {
                        Some(doc) => {
                            &&& crate::models::pricing::pricing_doc_spec(doc@) is Some
                            &&& reg.spec_models() == apply_config_spec(
                                default_models_map(),
                                crate::models::pricing::pricing_doc_spec(doc@)->Some_0,
                            )
                        },
                        None => reg.spec_models() == default_models_map(),
                    }
                },
                Err(e) => {
                    &&& e is ConfigLoadFailed
                    &&& pricing_doc is Some
                    &&& crate::models::pricing::pricing_doc_spec(pricing_doc->Some_0@) is None
                },
            },
    {
        let mut registry = Self::new();
        match registry.apply_pricing_from(pricing_doc) {
            Ok(()) => Ok(registry),
            Err(e) => Err(e),
        }
    }

    /// Register the built-in default models with their prices.
    fn register_default_models(&mut self)
        requires
            old(self).wf(),
        ensures
            final(self).wf(),
            final(self).spec_models() == {
                let m0 = old(self).spec_models();
                let m1 = upsert_keys(m0, "openai"@, "gpt-4"@, Some(30000u64), Some(60000u64));
                let m2 = upsert_keys(m1, "openai"@, "gpt-4-turbo"@, Some(10000u64), Some(30000u64));
                let m3 = upsert_keys(m2, "openai"@, "gpt-3.5-turbo"@, Some(1500u64), Some(2000u64));
                let m4 = upsert_keys(m3, "google"@, "gemini-pro"@, Some(1250u64), Some(10000u64));
                let m5 = upsert_keys(m4, "google"@, "gemini-2.5-pro"@, Some(1250u64), Some(10000u64));
                upsert_keys(m5, "google"@, "gemini-2.5-flash"@, Some(75u64), Some(300u64))
            },
    {
        self.upsert_model("openai", "gpt-4", Some(30000), Some(60000));
        self.upsert_model("openai", "gpt-4-turbo", Some(10000), Some(30000));
        self.upsert_model("openai", "gpt-3.5-turbo", Some(1500), Some(2000));
        self.upsert_model("google", "gemini-pro", Some(1250), Some(10000));
        self.upsert_model("google", "gemini-2.5-pro", Some(1250), Some(10000));
        self.upsert_model("google", "gemini-2.5-flash", Some(75), Some(300));
    }

    /// Find the entry stored under exactly this key.
    fn lookup(&self, key: &str) -> (r: Option<&ModelInfo>)
        requires
            self.wf(),
        ensures
            match r {
                Some(info) => self.spec_models().contains_key(key@) && info@ == self.spec_models()[
                    key@
                ],
                None => !self.spec_models().contains_key(key@),
            },
    {
        let n = self.models.len();
        let mut i: usize = 0;
        while i < n
            invariant
                i <= n,
                n == self.models@.len(),
                self.wf(),
                forall|j: int| 0 <= j < i ==> self.models@[j].0@ != key@,
            decreases n - i,
        {
            let pair = &self.models[i];
            if str_eq(pair.0.as_str(), key) {
                proof {
                    lemma_assoc_map_found(self.models@, key@, i as int);
                }
                return Some(&pair.1);
            }
            i = i + 1;
        }
        proof {
            lemma_assoc_map_absent(self.models@, key@);
        }
        None
    }

    /// Insert or overwrite the entry under one key.
    fn upsert_key(&mut self, key: String, info: ModelInfo)
        requires
            old(self).wf(),
        ensures
            final(self).wf(),
            final(self).spec_models() == old(self).spec_models().insert(key@, info@),
    {
        let n = self.models.len();
        let mut i: usize = 0;
        while i < n
            invariant
                i <= n,
                n == self.models@.len(),
                self == old(self),
                self.wf(),
                forall|j: int| 0 <= j < i ==> self.models@[j].0@ != key@,
            decreases n - i,
        {
            let found = str_eq(self.models[i].0.as_str(), key.as_str());
            if found {
                proof {
                    lemma_assoc_map_update(self.models@, i as int, key@, info@);
                }
                self.models[i] = (key, info);
                return ;
            }
            i = i + 1;
        }
        proof {
            let s = self.models@;
            let s2 = s.push((key, info));
            assert(s2.drop_last() =~= s);
        }
        self.models.push((key, info));
    }

    /// Register a model under its three derived keys: bare name,
    /// `provider/model`, and lowercased bare name. Existing entries
    /// under any of those keys are overwritten — last write wins.
    fn upsert_model(
        &mut self,
        provider: &str,
        model: &str,
        input_price: Option<u64>,
        output_price: Option<u64>,
    )
        requires
            old(self).wf(),
        ensures
            final(self).wf(),
            final(self).spec_models() == upsert_keys(
                old(self).spec_models(),
                provider@,
                model@,
                input_price,
                output_price,
            ),
    {
        let info = ModelInfo {
            provider: provider.to_owned(),
            model: model.to_owned(),
            input_price,
            output_price,
        };
        let key1 = model.to_owned();
        let mut key2 = String::new();
        key2.append(provider);
        key2.append("/");
        key2.append(model);
        let key3 = ascii_lower(model);
        proof {
            reveal_strlit("/");
            assert(key2@ =~= provider@.push('/') + model@);
        }
        self.upsert_key(key1, info.duplicate());
        self.upsert_key(key2, info.duplicate());
        self.upsert_key(key3, info);
    }

    /// Resolve a user-supplied model name to its catalog key: keep only
    /// the part after the last `/`, then apply the fixed equivalence
    /// table.
    pub fn resolve_alias(&self, model_name: &str) -> (r: String)
        ensures
            r@ == resolve_alias_spec(model_name@),
    {
        let n = model_name.unicode_len();
        let base = match find_last(model_name, '/') {
            Some(i) => {
                proof {
                    lemma_suffix_after_last_slash(model_name@, i as int);
                }
                model_name.substring_char(i + 1, n)
            },
            None => {
                proof {
                    lemma_suffix_no_slash(model_name@);
                }
                model_name
            },
        };
        if str_eq(base, "gpt-4-turbo") || str_eq(base, "gpt-4-turbo-preview") {
            "gpt-4-turbo-preview".to_owned()
        } else {
            base.to_owned()
        }
    }

    /// Look up a model record: the raw name first, then the resolved
    /// alias, then the lowercased alias. Never fails — absence is
    /// `None`.
    pub fn get_model_info(&self, model_name: &str) -> (r: Option<&ModelInfo>)
        requires
            self.wf(),
        ensures
            match r {
                Some(info) => spec_lookup(self.spec_models(), model_name@) == Some(info@),
                None => spec_lookup(self.spec_models(), model_name@) is None,
            },
    {
        if let Some(info) = self.lookup(model_name) {
            return Some(info);
        }
        let alias = self.resolve_alias(model_name);
        if let Some(info) = self.lookup(alias.as_str()) {
            return Some(info);
        }
        let lowered = ascii_lower(alias.as_str());
        self.lookup(lowered.as_str())
    }

    /// Pricing for a model, only when both prices are known; a model
    /// with a single known price is treated as unpriced.
    pub fn pricing_for(&self, model_name: &str) -> (r: Option<(u64, u64)>)
        requires
            self.wf(),
        ensures
            r == spec_pricing_for(self.spec_models(), model_name@),
    {
        match self.get_model_info(model_name) {
            Some(info) => match (info.input_price, info.output_price) {
                (Some(input), Some(output)) => Some((input, output)),
                _ => None,
            },
            None => None,
        }
    }

    /// All records currently stored, one per key: exactly the
    /// catalog's values.
    pub fn list_models(&self) -> (r: Vec<ModelInfo>)
        requires
            self.wf(),
        ensures
            r@.len() == self.spec_models().dom().len(),
            forall|i: int| 0 <= i < r@.len() ==> self.spec_models().contains_value(#[trigger] r@[i]@),
            forall|k: Seq<char>|
                #[trigger] self.spec_models().contains_key(k) ==> exists|i: int|
                    0 <= i < r@.len() && r@[i]@ == self.spec_models()[k],
    {
        let n = self.models.len();
        proof {
            lemma_assoc_map_size(self.models@);
        }
        let mut out: Vec<ModelInfo> = Vec::new();
        let mut i: usize = 0;
        while i < n
            invariant
                i <= n,
                n == self.models@.len(),
                self.wf(),
                out@.len() == i,
                forall|j: int| 0 <= j < i ==> #[trigger] out@[j]@ == self.models@[j].1@,
            decreases n - i,
        {
            out.push(self.models[i].1.duplicate());
            i = i + 1;
        }
        proof {
            let s = self.models@;
            let m = assoc_map(s);
            assert forall|j: int| 0 <= j < out@.len() implies m.contains_value(
                #[trigger] out@[j]@,
            ) by {
                lemma_assoc_map_found(s, s[j].0@, j);
            }
            assert forall|k: Seq<char>| #[trigger] m.contains_key(k) implies exists|j: int|
                0 <= j < out@.len() && out@[j]@ == m[k] by {
                if forall|j: int| 0 <= j < s.len() ==> (#[trigger] s[j].0)@ != k {
                    lemma_assoc_map_absent(s, k);
                }
                let j = choose|j: int| 0 <= j < s.len() && (#[trigger] s[j].0)@ == k;
                lemma_assoc_map_found(s, k, j);
                assert(out@[j]@ == m[k]);
            }
        }
        out
    }

    /// Build a tokenizer for a model: resolve the alias, then dispatch
    /// by name prefix — `gpt-`/`text-` to the exact backend, `gemini-`
    /// to the approximate backend. Any other prefix is unsupported.
    pub fn get_tokenizer(&self, model_name: &str) -> (r: Result<Tokenizer, ModelError>)
        ensures
            ({
                let resolved = resolve_alias_spec(model_name@);
                if is_prefix_of("gpt-"@, resolved) || is_prefix_of("text-"@, resolved) {
                    &&& (r is Ok <==> openai_model_known(resolved))
                    &&& r is Ok ==> r->Ok_0 is OpenAI && r->Ok_0.spec_name() == resolved
                        && r->Ok_0->OpenAI_0.spec_bpe() == crate::tokenizers::openai::openai_bpe_of(
                        resolved,
                    )
                        && r->Ok_0.spec_input_price() == openai_default_input_price(resolved)
                        && r->Ok_0.spec_output_price() == openai_default_output_price(resolved)
                    &&& r is Err ==> r->Err_0 is Tokenizer
                } else if is_prefix_of("gemini-"@, resolved) {
                    &&& r is Ok
                    &&& r->Ok_0 is Gemini && r->Ok_0.spec_name() == resolved
                        && r->Ok_0.spec_input_price() == gemini_default_input_price(resolved)
                        && r->Ok_0.spec_output_price() == gemini_default_output_price(resolved)
                } else {
                    &&& r is Err
                    &&& r->Err_0 matches ModelError::ModelNotFound { model } && model@
                        == model_name@
                }
            }),
    {
        let resolved = self.resolve_alias(model_name);
        if str_starts_with(resolved.as_str(), "gpt-") || str_starts_with(
            resolved.as_str(),
            "text-",
        ) {
            match OpenAITokenizer::new(resolved.as_str()) {
                Ok(t) => Ok(Tokenizer::OpenAI(t)),
                Err(e) => Err(ModelError::Tokenizer(e)),
            }
        } else if str_starts_with(resolved.as_str(), "gemini-") {
            match GeminiTokenizer::new(resolved.as_str()) {
                Ok(t) => Ok(Tokenizer::Gemini(t)),
                Err(e) => Err(ModelError::Tokenizer(e)),
            }
        } else {
            Err(ModelError::ModelNotFound { model: model_name.to_owned() })
        }
    }

    /// Fold a parsed pricing configuration into the catalog, in
    /// document order.
    fn apply_pricing_config(&mut self, config: &PricingConfig)
        requires
            old(self).wf(),
        ensures
            final(self).wf(),
            final(self).spec_models() == apply_config_spec(old(self).spec_models(), config@),
    {
        let n = config.entries.len();
        let mut i: usize = 0;
        while i < n
            invariant
                i <= n,
                n == config.entries@.len(),
                self.wf(),
                assoc_map(self.models@) == apply_config_prefix_spec(
                    old(self).spec_models(),
                    config@,
                    i as int,
                ),
            decreases n - i,
        {
            let e = &config.entries[i];
            self.upsert_model(
                e.provider.as_str(),
                e.model.as_str(),
                Some(e.input),
                Some(e.output),
            );
            i = i + 1;
        }
    }

    /// Apply pricing overrides from a configuration document, when one
    /// is given. `None` is a no-op; a document that does not parse
    /// fails the whole operation with `ConfigLoadFailed`, applying
    /// nothing — overrides are all-or-nothing.
    pub fn apply_pricing_from(&mut self, pricing_doc: Option<&str>) -> (r: Result<(), ModelError>)
        requires
            old(self).wf(),
        ensures
            final(self).wf(),
            match r {
                Ok(()) => match pricing_doc {
                    Some(doc) => {
                        &&& crate::models::pricing::pricing_doc_spec(doc@) is Some
                        &&& final(self).spec_models() == apply_config_spec(
                            old(self).spec_models(),
                            crate::models::pricing::pricing_doc_spec(doc@)->Some_0,
                        )
                    },
                    None => final(self).spec_models() == old(self).spec_models(),
                },
                Err(e) => {
                    &&& e is ConfigLoadFailed
                    &&& pricing_doc is Some
                    &&& crate::models::pricing::pricing_doc_spec(pricing_doc->Some_0@) is None
                    &&& final(self).spec_models() == old(self).spec_models()
                },
            },
    {
        let doc = match pricing_doc {
            Some(d) => d,
            None => {
                return Ok(());
            },
        };
        let config = match PricingConfig::parse(doc) {
            Ok(c) => c,
            Err(reason) => {
                let mut msg = String::new();
                msg.append("Failed to load pricing overrides: ");
                msg.append(reason.as_str());
                return Err(ModelError::ConfigLoadFailed(msg));
            },
        };
        self.apply_pricing_config(&config);
        Ok(())
    }
}

impl Default for ModelRegistry {
    fn default() -> (r: ModelRegistry)
        ensures
            r.wf(),
            r.spec_models() == default_models_map(),
    {
        ModelRegistry::new()
    }
}

/// Pricing for a model under one lookup, only when both prices are
/// known.
pub open spec fn spec_pricing_for(m: Map<Seq<char>, ModelInfoView>, name: Seq<char>) -> Option<
    (u64, u64),
> {
    match spec_lookup(m, name) {
        Some(info) => match (info.input_price, info.output_price) {
            (Some(input), Some(output)) => Some((input, output)),
            _ => None,
        },
        None => None,
    }
}

/// What folding the first `i` entries of a parsed configuration does
/// to a catalog.
pub open spec fn apply_config_prefix_spec(
    m: Map<Seq<char>, ModelInfoView>,
    entries: Seq<crate::models::pricing::PricingEntryView>,
    i: int,
) -> Map<Seq<char>, ModelInfoView>
    decreases i,
{
    if i <= 0 {
        m
    } else {
        let prev = apply_config_prefix_spec(m, entries, i - 1);
        let e = entries[i - 1];
        upsert_keys(prev, e.provider, e.model, Some(e.input), Some(e.output))
    }
}

/// What folding a whole parsed configuration does to a catalog.
pub open spec fn apply_config_spec(
    m: Map<Seq<char>, ModelInfoView>,
    entries: Seq<crate::models::pricing::PricingEntryView>,
) -> Map<Seq<char>, ModelInfoView> {
    apply_config_prefix_spec(m, entries, entries.len() as int)
}

/// Overrides strictly take precedence: after one model is
/// re-registered, pricing lookups under all three derived keys — the
/// bare name, `provider/model`, and the lowercased bare name — report
/// the new prices, whatever the catalog held before.
pub proof fn lemma_override_precedence(
    m: Map<Seq<char>, ModelInfoView>,
    provider: Seq<char>,
    model: Seq<char>,
    input_price: u64,
    output_price: u64,
)
    ensures
        ({
            let m2 = upsert_keys(m, provider, model, Some(input_price), Some(output_price));
            &&& spec_pricing_for(m2, model) == Some((input_price, output_price))
            &&& spec_pricing_for(m2, provider.push('/') + model) == Some(
                (input_price, output_price),
            )
            &&& spec_pricing_for(m2, lower_seq(model)) == Some((input_price, output_price))
        }),
{
}

proof fn lemma_assoc_map_found(s: Seq<(String, ModelInfo)>, k: Seq<char>, i: int)
    requires
        0 <= i < s.len(),
        s[i].0@ == k,
        forall|p: int, q: int| 0 <= p < q < s.len() ==> s[p].0@ != s[q].0@,
    ensures
        assoc_map(s).contains_key(k),
        assoc_map(s)[k] == s[i].1@,
    decreases s.len(),
{
    if i == s.len() - 1 {
    } else {
        lemma_assoc_map_found(s.drop_last(), k, i);
        assert(s.last().0@ != k);
    }
}

proof fn lemma_assoc_map_absent(s: Seq<(String, ModelInfo)>, k: Seq<char>)
    requires
        forall|j: int| 0 <= j < s.len() ==> s[j].0@ != k,
    ensures
        !assoc_map(s).contains_key(k),
    decreases s.len(),
{
    if s.len() > 0 {
        lemma_assoc_map_absent(s.drop_last(), k);
    }
}

proof fn lemma_assoc_map_update(s: Seq<(String, ModelInfo)>, i: int, k: Seq<char>, v: ModelInfoView)
    requires
        0 <= i < s.len(),
        s[i].0@ == k,
        forall|p: int, q: int| 0 <= p < q < s.len() ==> s[p].0@ != s[q].0@,
    ensures
        forall|key2: String, info2: ModelInfo|
            key2@ == k && info2@ == v ==> assoc_map(
                #[trigger] s.update(i, (key2, info2)),
            ) =~= assoc_map(s).insert(k, v),
    decreases s.len(),
{
    assert forall|key2: String, info2: ModelInfo|
        key2@ == k && info2@ == v implies assoc_map(
        #[trigger] s.update(i, (key2, info2)),
    ) =~= assoc_map(s).insert(k, v) by {
        let s2 = s.update(i, (key2, info2));
        if i == s.len() - 1 {
            assert(s2.drop_last() =~= s.drop_last());
            assert(s2.last() == (key2, info2));
            assert(assoc_map(s2) =~= assoc_map(s).insert(k, v));
        } else {
            lemma_assoc_map_update(s.drop_last(), i, k, v);
            assert(s2.drop_last() =~= s.drop_last().update(i, (key2, info2)));
            assert(assoc_map(s2.drop_last()) =~= assoc_map(s.drop_last()).insert(k, v));
            assert(s2.last() == s.last());
            assert(s.last().0@ != k);
            assert(assoc_map(s2) =~= assoc_map(s).insert(k, v));
        }
    }
}

proof fn lemma_assoc_map_size(s: Seq<(String, ModelInfo)>)
    requires
        forall|p: int, q: int| 0 <= p < q < s.len() ==> s[p].0@ != s[q].0@,
    ensures
        assoc_map(s).dom().len() == s.len(),
        assoc_map(s).dom().finite(),
    decreases s.len(),
{
    if s.len() == 0 {
        assert(assoc_map(s).dom() =~= Set::<Seq<char>>::empty());
    } else {
        lemma_assoc_map_size(s.drop_last());
        lemma_assoc_map_absent(s.drop_last(), s.last().0@);
        assert(assoc_map(s).dom() =~= assoc_map(s.drop_last()).dom().insert(s.last().0@));
    }
}

} // verus!

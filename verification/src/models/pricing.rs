//! Pricing override configuration: a small line-based document that
//! maps providers and models to input/output prices.
//!
//! The accepted grammar, line by line after ASCII trimming: blank
//! lines; `[provider]` section headers; `[provider.model]` model
//! sections; and `key = value` assignments inside a model section,
//! where the keys `input` and `output` give the price in dollars per
//! 1000 tokens as a decimal number with at most six fractional digits
//! (finer prices do not fit the micro-dollar domain), each at most
//! once per section, and unknown keys are ignored with their values.
//! A model section must set both prices. Anything else fails the whole
//! parse — overrides are all-or-nothing.

use vstd::arithmetic::div_mod::lemma_fundamental_div_mod;
use vstd::arithmetic::mul::{lemma_mul_inequality, lemma_mul_is_distributive_add};
use vstd::prelude::*;
use vstd::string::*;

use crate::strutil::{
    after_first, all_digits, before_first, digits_val, find_first, lemma_after_first_shorter,
    parse_u64, split_first, str_eq, trim, trim_spec,
};

verus! {

/// One pricing override: a provider, a model, and both prices in
/// micro-dollars per 1000 tokens.
#[derive(Debug, Clone)]
pub struct PricingEntry {
    pub provider: String,
    pub model: String,
    pub input: u64,
    pub output: u64,
}

/// The mathematical value of a `PricingEntry`.
pub ghost struct PricingEntryView {
    pub provider: Seq<char>,
    pub model: Seq<char>,
    pub input: u64,
    pub output: u64,
}

impl View for PricingEntry {
    type V = PricingEntryView;

    open spec fn view(&self) -> PricingEntryView {
        PricingEntryView {
            provider: self.provider@,
            model: self.model@,
            input: self.input,
            output: self.output,
        }
    }
}

/// A parsed pricing override document: its entries in document order.
pub struct PricingConfig {
    pub entries: Vec<PricingEntry>,
}

impl View for PricingConfig {
    type V = Seq<PricingEntryView>;

    open spec fn view(&self) -> Seq<PricingEntryView> {
        self.entries@.map_values(|e: PricingEntry| e@)
    }
}

/// Ten to the `n`.
pub open spec fn pow10(n: nat) -> nat
    decreases n,
{
    if n == 0 {
        1
    } else {
        10 * pow10((n - 1) as nat)
    }
}

proof fn lemma_pow10_pos(n: nat)
    ensures
        pow10(n) >= 1,
    decreases n,
{
    if n > 0 {
        lemma_pow10_pos((n - 1) as nat);
    }
}

proof fn lemma_pow10_vals()
    ensures
        pow10(0) == 1,
        pow10(1) == 10,
        pow10(2) == 100,
        pow10(3) == 1000,
        pow10(4) == 10000,
        pow10(5) == 100000,
{
    assert(pow10(0) == 1);
    assert(pow10(1) == 10);
    assert(pow10(2) == 100);
    assert(pow10(3) == 1000);
    assert(pow10(4) == 10000);
    assert(pow10(5) == 100000);
}

/// The value of a decimal price string in micro-units: digits with an
/// optional fraction of at most six digits. Nothing when the shape is
/// wrong or the value exceeds `u64::MAX`.
pub open spec fn price_micro_spec(s: Seq<char>) -> Option<u64> {
    match after_first(s, '.') {
        None => if all_digits(s) && digits_val(s) * 1000000 <= u64::MAX {
            Some((digits_val(s) * 1000000) as u64)
        } else {
            None
        },
        Some(frac) => {
            let ip = before_first(s, '.');
            if all_digits(ip) && all_digits(frac) && frac.len() <= 6 {
                let v = digits_val(ip) * 1000000 + digits_val(frac) * pow10((6 - frac.len()) as nat);
                if v <= u64::MAX {
                    Some(v as u64)
                } else {
                    None
                }
            } else {
                None
            }
        },
    }
}

/// `v * f <= max` exactly when `v <= max / f`, for positive `f`.
proof fn lemma_mul_le_iff_div(v: nat, f: nat, max: nat)
    requires
        f > 0,
    ensures
        (v * f <= max) <==> (v <= max / f),
{
    let q = (max / f) as int;
    lemma_fundamental_div_mod(max as int, f as int);
    if v <= max / f {
        lemma_mul_inequality(v as int, q, f as int);
    }
    if v * f <= max && v > max / f {
        lemma_mul_inequality(q + 1, v as int, f as int);
        lemma_mul_is_distributive_add(f as int, q, 1);
        assert(false);
    }
}

/// Parses a decimal price into micro-units.
fn parse_price_micro(s: &str) -> (r: Option<u64>)
    ensures
        r == price_micro_spec(s@),
{
    match split_first(s, '.') {
        None => {
            match parse_u64(s) {
                Some(v) => {
                    proof {
                        lemma_mul_le_iff_div(v as nat, 1000000, u64::MAX as nat);
                    }
                    if v <= u64::MAX / 1000000 {
                        Some(v * 1000000)
                    } else {
                        None
                    }
                },
                None => {
                    proof {
                        if all_digits(s@) {
                            // the digits alone exceed u64::MAX, so a fortiori with the factor
                            lemma_mul_inequality(1, 1000000, digits_val(s@) as int);
                        }
                    }
                    None
                },
            }
        },
        Some((ip_s, frac_s)) => {
            let ghost ip = before_first(s@, '.');
            let ghost frac = after_first(s@, '.')->Some_0;
            let fl = frac_s.unicode_len();
            if fl == 0 || fl > 6 {
                return None;
            }
            let fv = match parse_u64(frac_s) {
                Some(v) => v,
                None => {
                    proof {
                        if all_digits(ip) && all_digits(frac) && frac.len() <= 6 {
                            lemma_pow10_pos((6 - frac.len()) as nat);
                            lemma_mul_inequality(1, pow10((6 - frac.len()) as nat) as int, digits_val(frac) as int);
                            assert(digits_val(frac) * pow10((6 - frac.len()) as nat) >= digits_val(
                                frac,
                            ) * 1) by {
                                lemma_mul_inequality(
                                    1,
                                    pow10((6 - frac.len()) as nat) as int,
                                    digits_val(frac) as int,
                                );
                            }
                        }
                    }
                    return None;
                },
            };
            let ipv = match parse_u64(ip_s) {
                Some(v) => v,
                None => {
                    proof {
                        if all_digits(ip) && all_digits(frac) && frac.len() <= 6 {
                            lemma_mul_inequality(1, 1000000, digits_val(ip) as int);
                        }
                    }
                    return None;
                },
            };
            let scale: u64 = if fl == 1 {
                100000
            } else if fl == 2 {
                10000
            } else if fl == 3 {
                1000
            } else if fl == 4 {
                100
            } else if fl == 5 {
                10
            } else {
                1
            };
            proof {
                lemma_pow10_vals();
                assert(scale == pow10((6 - frac.len()) as nat));
                lemma_mul_le_iff_div(fv as nat, scale as nat, u64::MAX as nat);
            }
            if fv > u64::MAX / scale {
                return None;
            }
            let b = fv * scale;
            proof {
                lemma_mul_le_iff_div(ipv as nat, 1000000, u64::MAX as nat);
            }
            if ipv > u64::MAX / 1000000 {
                return None;
            }
            let a = ipv * 1000000;
            if b > u64::MAX - a {
                return None;
            }
            Some(a + b)
        },
    }
}

/// The lines of a document, split on `\n`.
pub open spec fn split_lines_spec(s: Seq<char>) -> Seq<Seq<char>>
    decreases s.len(),
{
    match after_first(s, '\n') {
        None => seq![s],
        Some(rest) => {
            proof {
                lemma_after_first_shorter(s, '\n');
            }
            seq![before_first(s, '\n')] + split_lines_spec(rest)
        },
    }
}

/// The parser's running state: the open model section with the prices
/// it has set so far, and the entries completed so far.
pub ghost struct PStateView {
    pub section: Option<(Seq<char>, Seq<char>)>,
    pub input: Option<u64>,
    pub output: Option<u64>,
    pub acc: Seq<PricingEntryView>,
}

/// The state before any line is read.
pub open spec fn init_pstate() -> PStateView {
    PStateView { section: None, input: None, output: None, acc: Seq::empty() }
}

/// Closing the open model section, if any: it must have set both
/// prices, and becomes one completed entry.
pub open spec fn finalize_spec(st: PStateView) -> Option<Seq<PricingEntryView>> {
    match st.section {
        None => Some(st.acc),
        Some(pm) => match (st.input, st.output) {
            (Some(i), Some(o)) => Some(
                st.acc.push(
                    PricingEntryView { provider: pm.0, model: pm.1, input: i, output: o },
                ),
            ),
            _ => None,
        },
    }
}

/// How one line advances the parser state; nothing on a malformed
/// line.
pub open spec fn step_spec(st: PStateView, line: Seq<char>) -> Option<PStateView> {
    let t = trim_spec(line);
    if t.len() == 0 {
        Some(st)
    } else if t[0] == '[' {
        if t.len() >= 2 && t.last() == ']' {
            let name = t.subrange(1, t.len() - 1);
            match finalize_spec(st) {
                Some(acc2) => match after_first(name, '.') {
                    None => if name.len() > 0 {
                        Some(PStateView { section: None, input: None, output: None, acc: acc2 })
                    } else {
                        None
                    },
                    Some(m) => {
                        let p = before_first(name, '.');
                        if p.len() > 0 && m.len() > 0 && after_first(m, '.') is None {
                            Some(
                                PStateView {
                                    section: Some((p, m)),
                                    input: None,
                                    output: None,
                                    acc: acc2,
                                },
                            )
                        } else {
                            None
                        }
                    },
                },
                None => None,
            }
        } else {
            None
        }
    } else {
        match after_first(t, '=') {
            Some(vraw) => {
                let key = trim_spec(before_first(t, '='));
                let val = trim_spec(vraw);
                if st.section is Some {
                    if key == "input"@ {
                        match price_micro_spec(val) {
                            Some(v) => if st.input is None {
                                Some(
                                    PStateView {
                                        section: st.section,
                                        input: Some(v),
                                        output: st.output,
                                        acc: st.acc,
                                    },
                                )
                            } else {
                                None
                            },
                            None => None,
                        }
                    } else if key == "output"@ {
                        match price_micro_spec(val) {
                            Some(v) => if st.output is None {
                                Some(
                                    PStateView {
                                        section: st.section,
                                        input: st.input,
                                        output: Some(v),
                                        acc: st.acc,
                                    },
                                )
                            } else {
                                None
                            },
                            None => None,
                        }
                    } else {
                        Some(st)
                    }
                } else {
                    None
                }
            },
            None => None,
        }
    }
}

/// Folding the remaining lines through the parser, then closing the
/// last section.
pub open spec fn fold_lines_spec(lines: Seq<Seq<char>>, st: PStateView) -> Option<
    Seq<PricingEntryView>,
>
    decreases lines.len(),
{
    if lines.len() == 0 {
        finalize_spec(st)
    } else {
        match step_spec(st, lines[0]) {
            Some(st2) => fold_lines_spec(lines.drop_first(), st2),
            None => None,
        }
    }
}

/// The entries a pricing document denotes, in document order; nothing
/// when the document is malformed.
pub open spec fn pricing_doc_spec(s: Seq<char>) -> Option<Seq<PricingEntryView>> {
    fold_lines_spec(split_lines_spec(s), init_pstate())
}

/// The parser's running state, executable side.
struct PState {
    section: Option<(String, String)>,
    input: Option<u64>,
    output: Option<u64>,
    entries: Vec<PricingEntry>,
}

impl PState {
    spec fn view_of(&self) -> PStateView {
        PStateView {
            section: match self.section {
                Some(pm) => Some((pm.0@, pm.1@)),
                None => None,
            },
            input: self.input,
            output: self.output,
            acc: self.entries@.map_values(|e: PricingEntry| e@),
        }
    }
}

/// Closes the open model section into a completed entry.
fn finalize_exec(st: &mut PState) -> (ok: bool)
    ensures
        match finalize_spec(old(st).view_of()) {
            Some(acc2) => ok && final(st).view_of() == (PStateView {
                section: None,
                input: None,
                output: None,
                acc: acc2,
            }),
            None => !ok,
        },
{
    if st.section.is_none() {
        st.input = None;
        st.output = None;
        return true;
    }
    match (st.input, st.output) {
        (Some(i), Some(o)) => {
            let p: String;
            let m: String;
            match &st.section {
                Some(pm) => {
                    p = pm.0.clone();
                    m = pm.1.clone();
                },
                None => {
                    // unreachable: the section was just seen to be open
                    return false;
                },
            }
            let entry = PricingEntry { provider: p, model: m, input: i, output: o };
            st.entries.push(entry);
            st.section = None;
            st.input = None;
            st.output = None;
            proof {
                assert(final(st).view_of().acc =~= finalize_spec(old(st).view_of())->Some_0);
            }
            true
        },
        _ => false,
    }
}

/// Advances the parser state by one line.
fn step_exec(st: &mut PState, line: &str) -> (ok: bool)
    ensures
        match step_spec(old(st).view_of(), line@) {
            Some(st2) => ok && final(st).view_of() == st2,
            None => !ok,
        },
{
    let t = trim(line);
    let tn = t.unicode_len();
    if tn == 0 {
        return true;
    }
    if t.get_char(0) == '[' {
        if !(tn >= 2 && t.get_char(tn - 1) == ']') {
            return false;
        }
        let name = t.substring_char(1, tn - 1);
        if !finalize_exec(st) {
            return false;
        }
        match split_first(name, '.') {
            None => name.unicode_len() > 0,
            Some((p, m)) => {
                let has_dot = match find_first(m, '.') {
                    Some(i) => {
                        proof {
                            crate::strutil::lemma_split_at_first(m@, '.', i as int);
                        }
                        true
                    },
                    None => {
                        proof {
                            crate::strutil::lemma_no_first(m@, '.');
                        }
                        false
                    },
                };
                if p.unicode_len() > 0 && m.unicode_len() > 0 && !has_dot {
                    st.section = Some((p.to_owned(), m.to_owned()));
                    true
                } else {
                    false
                }
            },
        }
    } else {
        match split_first(t, '=') {
            Some((kraw, vraw)) => {
                let key = trim(kraw);
                let val = trim(vraw);
                if st.section.is_some() {
                    if str_eq(key, "input") {
                        match parse_price_micro(val) {
                            Some(v) => {
                                if st.input.is_none() {
                                    st.input = Some(v);
                                    true
                                } else {
                                    false
                                }
                            },
                            None => false,
                        }
                    } else if str_eq(key, "output") {
                        match parse_price_micro(val) {
                            Some(v) => {
                                if st.output.is_none() {
                                    st.output = Some(v);
                                    true
                                } else {
                                    false
                                }
                            },
                            None => false,
                        }
                    } else {
                        true
                    }
                } else {
                    false
                }
            },
            None => false,
        }
    }
}

impl PricingConfig {
    /// Parses a pricing override document. Succeeds exactly when every
    /// line follows the grammar and every model section sets both
    /// prices; nothing is returned from a malformed document.
    pub fn parse(doc: &str) -> (r: Result<PricingConfig, String>)
        ensures
            match r {
                Ok(c) => pricing_doc_spec(doc@) == Some(c@),
                Err(_) => pricing_doc_spec(doc@) is None,
            },
    {
        let mut st = PState { section: None, input: None, output: None, entries: Vec::new() };
        proof {
            assert(st.view_of().acc =~= Seq::<PricingEntryView>::empty());
            assert(st.view_of() == init_pstate());
        }
        let mut rem: &str = doc;
        loop
            invariant
                pricing_doc_spec(doc@) == fold_lines_spec(split_lines_spec(rem@), st.view_of()),
            decreases rem@.len(),
        {
            match split_first(rem, '\n') {
                Some((line, rest)) => {
                    proof {
                        lemma_after_first_shorter(rem@, '\n');
                        assert((seq![before_first(rem@, '\n')] + split_lines_spec(
                            rest@,
                        )).drop_first() =~= split_lines_spec(rest@));
                    }
                    if !step_exec(&mut st, line) {
                        return Err("malformed pricing overrides document".to_owned());
                    }
                    rem = rest;
                },
                None => {
                    proof {
                        assert(split_lines_spec(rem@) == seq![rem@]);
                        assert(seq![rem@].drop_first() =~= Seq::<Seq<char>>::empty());
                        assert(seq![rem@][0] == rem@);
                    }
                    if !step_exec(&mut st, rem) {
                        return Err("malformed pricing overrides document".to_owned());
                    }
                    proof {
                        assert(fold_lines_spec(Seq::<Seq<char>>::empty(), st.view_of())
                            == finalize_spec(st.view_of()));
                    }
                    if !finalize_exec(&mut st) {
                        return Err(
                            "pricing overrides: a model section is missing a price".to_owned(),
                        );
                    }
                    let PState { entries, .. } = st;
                    let config = PricingConfig { entries };
                    return Ok(config);
                },
            }
        }
    }
}

} // verus!

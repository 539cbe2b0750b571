//! Sampling the domain and resolving sample values.
//!
//! The domain `[x_min, x_max]` is walked in `n` equal steps, one
//! sample at each of the `n + 1` stops. The value of a sample is the
//! formula evaluated there when the formula parses and binds the
//! variable `x`; when it does not, every sample silently takes the
//! constant one — a fallback the user is never told about.

use std::str::FromStr;
use vstd::arithmetic::div_mod::{
    lemma_div_pos_is_pos, lemma_fundamental_div_mod, lemma_mod_division_less_than_divisor,
};
use vstd::arithmetic::mul::lemma_mul_inequality;
use vstd::prelude::*;
use vstd::string::StrSliceExecFns;

use crate::fixed::{in_range, SCALE};

verus! {

/// One of the four characters the expression tokenizer skips as
/// whitespace.
pub open spec fn blank_char(c: char) -> bool {
    c == ' ' || c == '\t' || c == '\r' || c == '\n'
}

/// Text that is nothing but whitespace: non-empty, and every character
/// one the tokenizer skips. Such text must never reach the parser — on
/// it the tokenizer runs out of input inside a token match and panics
/// instead of returning an error.
pub open spec fn blank(s: Seq<char>) -> bool {
    s.len() > 0 && (forall|i: int| 0 <= i < s.len() ==> blank_char(s[i]))
}

/// Whether the text is nothing but whitespace.
pub fn is_blank(function: &str) -> (r: bool)
    ensures
        r == blank(function@),
{
    let n = function.unicode_len();
    let mut i: usize = 0;
    while i < n
        invariant
            i <= n,
            n == function@.len(),
            forall|j: int| 0 <= j < i ==> blank_char(#[trigger] function@[j]),
        decreases n - i,
    {
        let c = function.get_char(i);
        if !(c == ' ' || c == '\t' || c == '\r' || c == '\n') {
            return false;
        }
        i = i + 1;
    }
    n > 0
}

/// Whether meval parses the text and binds it to the one variable `x`.
pub uninterp spec fn binds_ok(s: Seq<char>) -> bool;

/// Relies on meval::Expr::from_str and Expr::bind: whether a formula
/// parses and whether its variables resolve against the built-in
/// constants and the one name `x` depend on the text alone, and both
/// report failure as an `Err`. Text that is nothing but whitespace is
/// kept out of this wrapper's domain: on it the tokenizer panics
/// rather than returning an error.
#[verifier::external_body]
pub(crate) fn parses_and_binds(function: &str) -> (r: bool)
    requires
        !blank(function@),
    ensures
        r == binds_ok(function@),
{
    match meval::Expr::from_str(function) {
        Ok(e) => e.bind("x").is_ok(),
        Err(_) => false,
    }
}

/// Whether the formula is drawn from its own values: it holds more
/// than whitespace, parses, and binds the variable `x`. Blank text
/// falls back like a parse failure, without reaching the parser.
pub open spec fn formula_binds(s: Seq<char>) -> bool {
    !blank(s) && binds_ok(s)
}

/// What a sample evaluates to: the evaluated value where the formula
/// bound, else the constant one.
pub open spec fn sample_value(bound: bool, eval: int) -> int {
    if bound {
        eval
    } else {
        SCALE as int
    }
}

/// Replaces the evaluated values with the constant one where the
/// formula does not parse and bind — blank text counts as failing to
/// parse — and keeps them as they are where it does.
pub fn resolve_samples(function: &str, evals: &Vec<i64>) -> (r: Vec<i64>)
    ensures
        r@.len() == evals@.len(),
        forall|i: int|
            0 <= i < evals@.len() ==> r@[i] == sample_value(
                formula_binds(function@),
                evals@[i] as int,
            ),
{
    let bound = if is_blank(function) {
        false
    } else {
        parses_and_binds(function)
    };
    let n = evals.len();
    let mut out: Vec<i64> = Vec::new();
    let mut i: usize = 0;
    while i < n
        invariant
            i <= n,
            n == evals@.len(),
            out@.len() == i,
            bound == formula_binds(function@),
            forall|j: int| 0 <= j < i ==> out@[j] == sample_value(bound, evals@[j] as int),
        decreases n - i,
    {
        if bound {
            out.push(evals[i]);
        } else {
            out.push(SCALE);
        }
        i = i + 1;
    }
    out
}

/// The width of one sampling step: the span divided by the count,
/// rounded down.
pub open spec fn step_spec(x_min: int, x_max: int, n: int) -> int
    recommends
        x_min < x_max,
        1 <= n,
{
    (x_max - x_min) / n
}

/// The `n + 1` abscissas at which the function is sampled: `x_min`,
/// then one more after each of `n` increments of the step.
pub fn sample_xs(x_min: i64, x_max: i64, n: usize) -> (xs: Vec<i64>)
    requires
        in_range(x_min as int),
        in_range(x_max as int),
        x_min < x_max,
        1 <= n <= 500,
    ensures
        xs@.len() == n + 1,
        forall|i: int|
            0 <= i <= n ==> xs@[i] == x_min + i * step_spec(x_min as int, x_max as int, n as int),
        forall|i: int| 0 <= i <= n ==> x_min <= #[trigger] xs@[i] && xs@[i] <= x_max,
{
    let span = x_max - x_min;
    let step = span / (n as i64);
    proof {
        lemma_fundamental_div_mod(span as int, n as int);
        lemma_mod_division_less_than_divisor(span as int, n as int);
        lemma_div_pos_is_pos(span as int, n as int);
        assert(step == step_spec(x_min as int, x_max as int, n as int));
        assert((n as int) * step <= span);
    }
    let mut xs: Vec<i64> = Vec::new();
    let mut x = x_min;
    xs.push(x);
    let mut i: usize = 0;
    while i < n
        invariant
            i <= n,
            1 <= n <= 500,
            in_range(x_min as int),
            in_range(x_max as int),
            x_min < x_max,
            0 <= step,
            step == step_spec(x_min as int, x_max as int, n as int),
            (n as int) * step <= x_max - x_min,
            xs@.len() == i + 1,
            x == x_min + i * step,
            x_min <= x <= x_max,
            forall|j: int| 0 <= j <= i ==> xs@[j] == x_min + j * step,
            forall|j: int| 0 <= j <= i ==> x_min <= #[trigger] xs@[j] && xs@[j] <= x_max,
        decreases n - i,
    {
        proof {
            lemma_mul_inequality(i + 1, n as int, step as int);
            assert((i + 1) * step == i * step + step) by (nonlinear_arith);
        }
        x = x + step;
        xs.push(x);
        i = i + 1;
    }
    xs
}

} // verus!

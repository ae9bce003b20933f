//! The cost model of one analysis request.
//!
//! Money is counted in microcents: one microcent is a millionth of a cent, a
//! hundred-millionth of a US dollar. A rate in cents per million tokens times
//! a number of tokens is a cost in microcents, so every figure of the model
//! is a whole number and nothing is rounded before it is shown.

use vstd::prelude::*;
use crate::text::{decimal_string, decimal_text, digit_str, same_text, two_digit_text};

verus! {

/// Characters of content that count as one token.
pub const CHARS_PER_TOKEN: usize = 4;

/// Tokens added to every request for the prompt that goes with the content.
pub const PROMPT_OVERHEAD_TOKENS: usize = 1000;

/// Rate of `gemini-1.5-flash`, in cents per million tokens.
pub const FLASH_15_RATE: u64 = 15;

/// Rate of `gemini-1.5-pro`, in cents per million tokens.
pub const PRO_15_RATE: u64 = 350;

/// Rate of `gemini-1.0-pro`, in cents per million tokens.
pub const PRO_10_RATE: u64 = 50;

/// Rate charged for a model that the price table does not list, in cents per
/// million tokens.
pub const DEFAULT_RATE: u64 = 100;

/// Microcents in one cent.
pub const MICROCENTS_PER_CENT: u128 = 1_000_000;

/// Microcents in one dollar.
pub const MICROCENTS_PER_DOLLAR: u128 = 100_000_000;

/// Tokens that content of `code_length` characters is billed as: a quarter of
/// the length, rounded down, plus the prompt overhead.
pub open spec fn token_estimate(code_length: nat) -> nat {
    code_length / 4 + 1000
}

/// The price table: cents per million tokens for each model identifier.
pub open spec fn rate_for(model: Seq<char>) -> nat {
    if model == "gemini-1.5-flash"@ {
        15
    } else if model == "gemini-1.5-pro"@ {
        350
    } else if model == "gemini-1.0-pro"@ {
        50
    } else {
        100
    }
}

/// Whether the price table lists `model`.
pub open spec fn is_listed(model: Seq<char>) -> bool {
    model == "gemini-1.5-flash"@ || model == "gemini-1.5-pro"@ || model == "gemini-1.0-pro"@
}

/// Estimated cost in microcents of sending `code_length` characters to
/// `model`.
pub open spec fn cost_of(code_length: nat, model: Seq<char>) -> nat {
    token_estimate(code_length) * rate_for(model)
}

/// A cost in whole cents, rounded to the nearest cent; a half rounds up.
pub open spec fn rounded_cents(cost: nat) -> nat {
    cost / 1_000_000 + if cost % 1_000_000 >= 500_000 {
        1nat
    } else {
        0nat
    }
}

/// How a cost in microcents is shown: anything under one cent as
/// `< $0.01`, anything else as `~$` and the dollars with two decimals.
pub open spec fn cost_text(cost: nat) -> Seq<char> {
    if cost < 1_000_000 {
        "< $0.01"@
    } else {
        "~$"@ + decimal_text(rounded_cents(cost) / 100) + "."@ + two_digit_text(
            rounded_cents(cost) % 100,
        )
    }
}

/// Estimates the tokens that `code_length` characters of content are billed
/// as.
pub fn estimate_tokens(code_length: usize) -> (tokens: usize)
    ensures
        tokens == token_estimate(code_length as nat),
{
    code_length / CHARS_PER_TOKEN + PROMPT_OVERHEAD_TOKENS
}

/// Looks `model` up in the price table. A model that the table does not list
/// gets the default rate.
pub fn rate_per_million_tokens(model: &str) -> (rate: u64)
    ensures
        rate == rate_for(model@),
{
    if same_text(model, "gemini-1.5-flash") {
        FLASH_15_RATE
    } else if same_text(model, "gemini-1.5-pro") {
        PRO_15_RATE
    } else if same_text(model, "gemini-1.0-pro") {
        PRO_10_RATE
    } else {
        DEFAULT_RATE
    }
}

/// Estimates what an analysis of `code_length` characters by `model` costs,
/// in microcents. There is no failure: an unknown model is charged the
/// default rate.
pub fn estimate_cost(code_length: usize, model: &str) -> (cost: u128)
    ensures
        cost == cost_of(code_length as nat, model@),
{
    let tokens: u128 = estimate_tokens(code_length) as u128;
    let rate: u128 = rate_per_million_tokens(model) as u128;
    assert(tokens * rate <= 0xffff_ffff_ffff_ffff * 350) by (nonlinear_arith)
        requires
            tokens <= 0xffff_ffff_ffff_ffff,
            rate <= 350,
    ;
    tokens * rate
}

/// Shows a cost in microcents to the user.
pub fn format_cost_estimate(cost: u128) -> (text: String)
    ensures
        text@ == cost_text(cost as nat),
{
    if cost < MICROCENTS_PER_CENT {
        String::from_str("< $0.01")
    } else {
        let whole: u128 = cost / MICROCENTS_PER_CENT;
        let cents: u128 = if cost % MICROCENTS_PER_CENT >= 500_000 {
            whole + 1
        } else {
            whole
        };
        let dollars = decimal_string(cents / 100);
        let rest: u8 = (cents % 100) as u8;
        let mut text = String::from_str("~$");
        text.append(dollars.as_str());
        text.append(".");
        text.append(digit_str(rest / 10));
        text.append(digit_str(rest % 10));
        assert(text@ =~= cost_text(cost as nat));
        text
    }
}

/// The estimate never falls when the content grows: for one model, longer
/// content costs at least as much as shorter content.
pub proof fn cost_grows_with_length(shorter: nat, longer: nat, model: Seq<char>)
    requires
        shorter <= longer,
    ensures
        cost_of(shorter, model) <= cost_of(longer, model),
{
    let rate = rate_for(model);
    let few = token_estimate(shorter);
    let many = token_estimate(longer);
    assert(few <= many);
    assert(few * rate <= many * rate) by (nonlinear_arith)
        requires
            few <= many,
            0 <= rate,
    ;
}

/// A model that the price table does not list is charged the default rate,
/// whatever the length of the content.
pub proof fn unlisted_model_costs_default_rate(code_length: nat, model: Seq<char>)
    requires
        !is_listed(model),
    ensures
        rate_for(model) == 100,
        cost_of(code_length, model) == token_estimate(code_length) * 100,
{
}

/// The cents that are shown are the cents nearest to the cost: they differ
/// from it by half a cent at most, and by less than that when rounded down.
pub proof fn shown_cents_are_nearest(cost: nat)
    ensures
        rounded_cents(cost) * 1_000_000 - 500_000 <= cost,
        cost < rounded_cents(cost) * 1_000_000 + 500_000,
{
}

} // verus!

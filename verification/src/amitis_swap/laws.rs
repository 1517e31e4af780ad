//! Properties of the swap's fee split and pricing.
use super::contract::{
    fee_amount, gross_amts, lp_amount, net_fee_amount, quoted_amts, rebate_amount,
    is_accepted, is_first_denom, rate_cents, saturating_mul, swap_sends, validator_amount,
    SwapPlan,
};
use super::msg::AcceptedDenom;
use crate::common::parsed_u128;
use super::state::Config;
use crate::common::{BankSend, Coin};
use vstd::prelude::*;

verus! {

/// The fee is split without creating value: the rebate and the kept fee together make up
/// the 0.30% fee to within one base unit of rounding, and the liquidity and validator
/// parts never exceed the kept fee.
pub proof fn law_fee_split(input: u128)
    ensures
        rebate_amount(input) + net_fee_amount(input) <= fee_amount(input),
        fee_amount(input) <= rebate_amount(input) + net_fee_amount(input) + 1,
        lp_amount(input) + validator_amount(input) <= net_fee_amount(input),
        0 <= validator_amount(input) <= lp_amount(input),
        fee_amount(input) <= input,
{
    let x = input as int;
    assert(x * 24 / 10000 + x * 6 / 10000 <= x * 30 / 10000) by (nonlinear_arith)
        requires
            x >= 0,
    ;
    assert(x * 30 / 10000 <= x * 24 / 10000 + x * 6 / 10000 + 1) by (nonlinear_arith)
        requires
            x >= 0,
    ;
    let n = x * 6 / 10000;
    assert(n >= 0) by (nonlinear_arith)
        requires
            x >= 0,
            n == x * 6 / 10000,
    ;
    assert(n * 80 / 100 + n * 20 / 100 <= n) by (nonlinear_arith)
        requires
            n >= 0,
    ;
    assert(0 <= n * 20 / 100 <= n * 80 / 100) by (nonlinear_arith)
        requires
            n >= 0,
    ;
    assert(x * 30 / 10000 <= x) by (nonlinear_arith)
        requires
            x >= 0,
    ;
}

/// A quote predicts the swap: whenever the swap's product does not overflow and the rate
/// is positive, the quoted AMTS amount is the amount the swap dispenses.
pub proof fn law_quote_matches_swap(input: u128, upc: u64, rate: u64)
    requires
        input * upc <= u128::MAX,
        rate > 0,
    ensures
        quoted_amts(input, upc, rate) == gross_amts(input, upc, rate),
{
    assert(input * upc >= 0) by (nonlinear_arith);
    assert(saturating_mul(input as int, upc as int) == input * upc);
}

/// Buying more never yields fewer AMTS at the same rate.
pub proof fn law_amts_monotone_in_input(a: u128, b: u128, upc: u64, rate: u64)
    requires
        a <= b,
        rate > 0,
    ensures
        gross_amts(a, upc, rate) <= gross_amts(b, upc, rate),
{
    assert(a * upc <= b * upc) by (nonlinear_arith)
        requires
            a <= b,
            upc >= 0,
    ;
    vstd::arithmetic::div_mod::lemma_div_is_ordered(a * upc, b * upc, rate as int);
}

/// A higher rate never yields more AMTS for the same input.
pub proof fn law_amts_antitone_in_rate(input: u128, upc: u64, r1: u64, r2: u64)
    requires
        0 < r1 <= r2,
    ensures
        gross_amts(input, upc, r2) <= gross_amts(input, upc, r1),
{
    let num = input * upc;
    assert(num >= 0) by (nonlinear_arith)
        requires
            num == input * upc,
    ;
    vstd::arithmetic::div_mod::lemma_div_is_ordered_by_denominator(num, r1 as int, r2 as int);
}

/// The transfers of a settled swap: first the AMTS bought to the buyer; then, each only
/// when positive, the rebate to the buyer, the liquidity part to the DEX when one is
/// configured (the community pool otherwise), and last the validator part to the fee
/// collector, whether or not a DEX is configured. Every transfer after the first is in
/// the input token.
pub proof fn law_swap_transfers(config: Config, sender: String, plan: SwapPlan)
    ensures
        ({
            let s = swap_sends(config, sender, plan);
            let r: int = if plan.rebate > 0 { 1 } else { 0 };
            let l: int = if plan.lp_amount > 0 { 1 } else { 0 };
            let v: int = if plan.validator_amount > 0 { 1 } else { 0 };
            &&& s.len() == 1 + r + l + v
            &&& s[0] == (BankSend {
                to_address: sender,
                coin: Coin { denom: config.amts_denom, amount: plan.amts_out },
            })
            &&& forall|i: int| 1 <= i < s.len() ==> (#[trigger] s[i]).coin.denom == plan.input_denom
            &&& plan.rebate > 0 ==> s[1] == (BankSend {
                to_address: sender,
                coin: Coin { denom: plan.input_denom, amount: plan.rebate },
            })
            &&& plan.lp_amount > 0 ==> s[1 + r] == (BankSend {
                to_address: match config.dex_contract_address {
                    Some(d) => d,
                    None => config.community_pool_address,
                },
                coin: Coin { denom: plan.input_denom, amount: plan.lp_amount },
            })
            &&& plan.validator_amount > 0 ==> s[1 + r + l] == (BankSend {
                to_address: config.fee_collector_address,
                coin: Coin { denom: plan.input_denom, amount: plan.validator_amount },
            })
        }),
{
}

/// Each amount is the rounded-down share of the input it is named after: the fee is
/// 30, the rebate 24 and the kept fee 6 basis points of the input; the liquidity and
/// validator parts are 80% and 20% of the kept fee.
pub proof fn law_fee_shares(input: u128)
    ensures
        fee_amount(input) * 10_000 <= input * 30 < (fee_amount(input) + 1) * 10_000,
        rebate_amount(input) * 10_000 <= input * 24 < (rebate_amount(input) + 1) * 10_000,
        net_fee_amount(input) * 10_000 <= input * 6 < (net_fee_amount(input) + 1) * 10_000,
        lp_amount(input) * 100 <= net_fee_amount(input) * 80 < (lp_amount(input) + 1) * 100,
        validator_amount(input) * 100 <= net_fee_amount(input) * 20 < (validator_amount(input)
            + 1) * 100,
{
    let x = input as int;
    assert(x * 30 / 10000 * 10_000 <= x * 30 < (x * 30 / 10000 + 1) * 10_000) by (nonlinear_arith)
        requires
            x >= 0,
    ;
    assert(x * 24 / 10000 * 10_000 <= x * 24 < (x * 24 / 10000 + 1) * 10_000) by (nonlinear_arith)
        requires
            x >= 0,
    ;
    assert(x * 6 / 10000 * 10_000 <= x * 6 < (x * 6 / 10000 + 1) * 10_000) by (nonlinear_arith)
        requires
            x >= 0,
    ;
    let n = net_fee_amount(input);
    assert(n * 80 / 100 * 100 <= n * 80 < (n * 80 / 100 + 1) * 100) by (nonlinear_arith)
        requires
            n >= 0,
    ;
    assert(n * 20 / 100 * 100 <= n * 20 < (n * 20 / 100 + 1) * 100) by (nonlinear_arith)
        requires
            n >= 0,
    ;
}

/// The AMTS bought is the input's value divided by the rate, rounded down: the buyer
/// gets the largest amount whose price at the rate does not exceed what was paid.
pub proof fn law_amts_bought(input: u128, upc: u64, rate: u64)
    requires
        rate > 0,
    ensures
        gross_amts(input, upc, rate) * rate <= input * upc < (gross_amts(input, upc, rate) + 1)
            * rate,
{
    let p = input * upc;
    assert(p >= 0) by (nonlinear_arith)
        requires
            p == input * upc,
    ;
    let r = rate as int;
    assert(p / r * r <= p < (p / r + 1) * r) by (nonlinear_arith)
        requires
            p >= 0,
            r > 0,
    ;
}

/// The current rate follows the oracle and never drops below the floor: without an
/// oracle or an answer it is the floor; an answer of `a > 0` AMTS per VPT prices AMTS at
/// $7.50 (750,000,000 micro-cents) divided by `a`, rounded down, raised to the floor when
/// below it; an answer of zero gives the floor, and one that does not parse counts as
/// 1,000,000 AMTS per VPT, that is 750 cents.
pub proof fn law_rate_follows_oracle(config: Config, answer: Option<String>)
    ensures
        ({
            let r = rate_cents(config, answer) as int;
            let f = config.floor_price_cents as int;
            &&& r >= f
            &&& config.oracle_address is None || answer is None ==> r == f
            &&& config.oracle_address is Some && answer is Some && parsed_u128(answer->0@)
                == Some(0u128) ==> r == f
            &&& config.oracle_address is Some && answer is Some && parsed_u128(answer->0@) is None
                ==> r == if f > 750 { f } else { 750 }
            &&& config.oracle_address is Some && answer is Some && parsed_u128(answer->0@) is Some
                && parsed_u128(answer->0@)->0 > 0 ==> ({
                let a = parsed_u128(answer->0@)->0 as int;
                &&& r > f ==> r * a <= 750_000_000 < (r + 1) * a
                &&& r == f ==> 750_000_000 < (f + 1) * a
            })
        }),
{
    if config.oracle_address is Some && answer is Some {
        if let Some(v) = parsed_u128(answer->0@) {
            if v > 0 {
                let a = v as int;
                let p = 750_000_000int / a;
                assert(p * a <= 750_000_000 < (p + 1) * a) by (nonlinear_arith)
                    requires
                        a > 0,
                        p == 750_000_000int / a,
                ;
                let r = rate_cents(config, answer) as int;
                let f = config.floor_price_cents as int;
                if r == f && p >= f {
                    assert(p == f);
                }
                if r == f && p < f {
                    assert((p + 1) * a <= (f + 1) * a) by (nonlinear_arith)
                        requires
                            p + 1 <= f + 1,
                            a > 0,
                    ;
                }
            }
        }
    }
}

/// The accepted denomination that prices a coin is the first one with its name: there is
/// one exactly when some accepted denomination has that name, and it is unique.
pub proof fn law_first_denom_is_unique(denoms: Seq<AcceptedDenom>, denom: Seq<char>, i: int, j: int)
    ensures
        is_first_denom(denoms, denom, i) ==> is_accepted(denoms, denom),
        is_first_denom(denoms, denom, i) && is_first_denom(denoms, denom, j) ==> i == j,
        is_first_denom(denoms, denom, i) ==> denoms[i].denom@ == denom,
{
}

/// A quote never fails on size: where the input's value overflows 128 bits the quote
/// prices the largest amount instead, and at a zero rate it quotes nothing.
pub proof fn law_quote_saturates(input: u128, upc: u64, rate: u64)
    ensures
        rate == 0 ==> quoted_amts(input, upc, rate) == 0,
        rate > 0 && input * upc > u128::MAX ==> quoted_amts(input, upc, rate) == (u128::MAX as int)
            / (rate as int),
        rate > 0 && input * upc <= u128::MAX ==> quoted_amts(input, upc, rate) == gross_amts(
            input,
            upc,
            rate,
        ),
{
    if rate > 0 && input * upc <= u128::MAX {
        law_quote_matches_swap(input, upc, rate);
    }
}

} // verus!

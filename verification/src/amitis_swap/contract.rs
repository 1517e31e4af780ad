use super::error::ContractError;
use super::msg::{AcceptedDenom, ConfigResponse, InstantiateMsg, QuoteResponse, StateResponse};
use super::state::{Config, State};
use crate::common::{decimal, parse_u128, parsed_u128, u128_to_string, BankSend, Coin, StdError};
use vstd::prelude::*;

verus! {

/// Total swap fee in basis points (0.30%).
pub const FEE_BPS: u128 = 30;

/// Part of the fee rebated to the buyer, in basis points (80% of the fee).
pub const REBATE_BPS: u128 = 24;

/// Part of the fee kept, in basis points (20% of the fee).
pub const NET_FEE_BPS: u128 = 6;

/// Percentage of the kept fee routed to the DEX pool or community pool.
pub const LP_SPLIT: u128 = 80;

/// Percentage of the kept fee routed to the validator fee collector.
pub const VAL_SPLIT: u128 = 20;

pub const BPS_BASE: u128 = 10_000;

/// Price of one VPT in cents ($7.50).
pub const VPT_BASE_PRICE_CENTS: u64 = 750;

/// AMTS per VPT assumed when the oracle's figure does not parse.
pub const DEFAULT_AMTS_PER_VPT: u128 = 1_000_000;

/// The fee on an input, in the input token.
pub open spec fn fee_amount(input: u128) -> int {
    input * FEE_BPS / (BPS_BASE as int)
}

/// The rebate on an input, in the input token.
pub open spec fn rebate_amount(input: u128) -> int {
    input * REBATE_BPS / (BPS_BASE as int)
}

/// The fee kept on an input, in the input token.
pub open spec fn net_fee_amount(input: u128) -> int {
    input * NET_FEE_BPS / (BPS_BASE as int)
}

/// The kept fee routed to the DEX or community pool.
pub open spec fn lp_amount(input: u128) -> int {
    net_fee_amount(input) * LP_SPLIT / 100
}

/// The kept fee routed to the validator fee collector.
pub open spec fn validator_amount(input: u128) -> int {
    net_fee_amount(input) * VAL_SPLIT / 100
}

/// AMTS base units bought by `input` base units priced at `upc` each at `rate_cents`:
/// 7,500,000 uusdc priced at 100 each buy 1,000,000 uamts at 750 cents.
pub open spec fn gross_amts(input: u128, upc: u64, rate_cents: u64) -> int {
    (input * upc) / (rate_cents as int)
}

/// `amount * bps / 10,000`, rounded down, computed without an intermediate product that
/// could overflow.
fn bps_of(amount: u128, bps: u128) -> (r: u128)
    requires
        bps <= BPS_BASE,
    ensures
        r == amount * bps / (BPS_BASE as int),
{
    let q = amount / BPS_BASE;
    let m = amount % BPS_BASE;
    assert(amount * bps == m * bps + (q * bps) * 10_000) by (nonlinear_arith)
        requires
            q == amount / 10_000,
            m == amount % 10_000,
    {
        vstd::arithmetic::div_mod::lemma_fundamental_div_mod(amount as int, 10_000);
    }
    proof {
        vstd::arithmetic::div_mod::lemma_hoist_over_denominator(m * bps, q * bps, 10_000);
    }
    assert(q * bps <= amount * bps / 10_000) by (nonlinear_arith)
        requires
            q == amount / 10_000,
            amount >= 0,
            0 <= bps,
    ;
    assert(m * bps <= 10_000 * 10_000) by (nonlinear_arith)
        requires
            0 <= m < 10_000,
            0 <= bps <= 10_000,
    ;
    assert(amount * bps / 10_000 <= amount) by (nonlinear_arith)
        requires
            amount >= 0,
            0 <= bps <= 10_000,
    ;
    q * bps + m * bps / BPS_BASE
}

/// `i` is the first accepted denomination named `denom`.
pub open spec fn is_first_denom(denoms: Seq<AcceptedDenom>, denom: Seq<char>, i: int) -> bool {
    &&& 0 <= i < denoms.len()
    &&& denoms[i].denom@ == denom
    &&& forall|j: int| 0 <= j < i ==> denoms[j].denom@ != denom
}

/// Some accepted denomination is named `denom`.
pub open spec fn is_accepted(denoms: Seq<AcceptedDenom>, denom: Seq<char>) -> bool {
    exists|i: int| 0 <= i < denoms.len() && denoms[i].denom@ == denom
}

/// The AMTS price in cents that an oracle answer of `amts_per_vpt` implies, before
/// the floor is applied.
pub open spec fn oracle_price(amts_per_vpt: u128) -> int {
    (VPT_BASE_PRICE_CENTS * 1_000_000) / (amts_per_vpt as int)
}

/// The current AMTS rate in cents: the floor when no oracle is configured, the oracle did
/// not answer, or it reports zero AMTS per VPT; otherwise the oracle price, raised to the
/// floor when below it. A figure that does not parse counts as 1,000,000 AMTS per VPT.
pub open spec fn rate_cents(config: Config, oracle_answer: Option<String>) -> u64 {
    if config.oracle_address is None || oracle_answer is None {
        config.floor_price_cents
    } else {
        let a = match parsed_u128(oracle_answer->0@) {
            Some(v) => v,
            None => DEFAULT_AMTS_PER_VPT,
        };
        if a == 0 {
            config.floor_price_cents
        } else if oracle_price(a) < config.floor_price_cents {
            config.floor_price_cents
        } else {
            oracle_price(a) as u64
        }
    }
}

/// A swap that passed every check up to the reserve check.
#[derive(Clone, Debug, PartialEq, Eq)]
pub struct SwapPlan {
    /// Denomination of the input coin.
    pub input_denom: String,
    /// Amount of the input coin.
    pub input: u128,
    /// Index of the accepted denomination that prices the input.
    pub denom_index: usize,
    pub rate_cents: u64,
    pub amts_out: u128,
    pub rebate: u128,
    pub lp_amount: u128,
    pub validator_amount: u128,
}

/// A settled swap: the new totals and the transfers to perform.
#[derive(Clone, Debug, PartialEq, Eq)]
pub struct SwapOutcome {
    pub state: State,
    pub sends: Vec<BankSend>,
}

/// Where the liquidity part of the fee goes: the DEX when one is configured, otherwise
/// the community pool.
pub open spec fn lp_destination(config: Config) -> String {
    match config.dex_contract_address {
        Some(d) => d,
        None => config.community_pool_address,
    }
}

/// The transfers of a settled swap, in order: AMTS to the buyer, then (each only when
/// non-zero) the rebate to the buyer, the liquidity part to its destination and the
/// validator part to the fee collector.
pub open spec fn swap_sends(config: Config, sender: String, plan: SwapPlan) -> Seq<BankSend> {
    let s1 = seq![
        BankSend {
            to_address: sender,
            coin: Coin { denom: config.amts_denom, amount: plan.amts_out },
        },
    ];
    let s2 = if plan.rebate > 0 {
        s1.push(
            BankSend { to_address: sender, coin: Coin { denom: plan.input_denom, amount: plan.rebate } },
        )
    } else {
        s1
    };
    let s3 = if plan.lp_amount > 0 {
        s2.push(
            BankSend {
                to_address: lp_destination(config),
                coin: Coin { denom: plan.input_denom, amount: plan.lp_amount },
            },
        )
    } else {
        s2
    };
    if plan.validator_amount > 0 {
        s3.push(
            BankSend {
                to_address: config.fee_collector_address,
                coin: Coin { denom: plan.input_denom, amount: plan.validator_amount },
            },
        )
    } else {
        s3
    }
}

/// Builds the configuration and the initial totals of a new swap contract.
pub fn instantiate(msg: InstantiateMsg) -> (r: (Config, State))
    ensures
        r.0 == (Config {
            amts_denom: msg.amts_denom,
            accepted_denoms: msg.accepted_denoms,
            floor_price_cents: msg.floor_price_cents,
            ceiling_price_cents: msg.ceiling_price_cents,
            community_pool_address: msg.community_pool_address,
            dex_contract_address: msg.dex_contract_address,
            fee_collector_address: msg.fee_collector_address,
            oracle_address: msg.oracle_address,
            governance_address: msg.governance_address,
        }),
        r.1 == (State {
            paused: false,
            total_swaps: 0,
            total_amts_dispensed: 0,
            total_usdc_received: 0,
        }),
{
    let config = Config {
        amts_denom: msg.amts_denom,
        accepted_denoms: msg.accepted_denoms,
        floor_price_cents: msg.floor_price_cents,
        ceiling_price_cents: msg.ceiling_price_cents,
        community_pool_address: msg.community_pool_address,
        dex_contract_address: msg.dex_contract_address,
        fee_collector_address: msg.fee_collector_address,
        oracle_address: msg.oracle_address,
        governance_address: msg.governance_address,
    };
    let state = State {
        paused: false,
        total_swaps: 0,
        total_amts_dispensed: 0,
        total_usdc_received: 0,
    };
    (config, state)
}

/// The current AMTS rate in cents, from the oracle's `amts_per_vpt` figure when the
/// configured oracle answered (`None` when it did not or none is configured).
pub fn current_rate_cents(config: &Config, oracle_answer: &Option<String>) -> (r: u64)
    ensures
        r == rate_cents(*config, *oracle_answer),
        r >= config.floor_price_cents,
{
    if config.oracle_address.is_none() {
        return config.floor_price_cents;
    }
    let answer = match oracle_answer {
        Some(a) => a,
        None => {
            return config.floor_price_cents;
        },
    };
    let amts_per_vpt: u128 = match parse_u128(answer) {
        Some(v) => v,
        None => DEFAULT_AMTS_PER_VPT,
    };
    if amts_per_vpt == 0 {
        return config.floor_price_cents;
    }
    let price: u128 = (VPT_BASE_PRICE_CENTS as u128 * 1_000_000) / amts_per_vpt;
    assert(price <= 750_000_000);
    let price_cents = price as u64;
    if price_cents < config.floor_price_cents {
        config.floor_price_cents
    } else {
        price_cents
    }
}

/// The index of the first accepted denomination named `denom`.
pub fn find_denom(denoms: &Vec<AcceptedDenom>, denom: &String) -> (r: Option<usize>)
    ensures
        r matches Some(i) ==> is_first_denom(denoms@, denom@, i as int),
        r is None <==> !is_accepted(denoms@, denom@),
{
    let n = denoms.len();
    let mut i: usize = 0;
    while i < n
        invariant
            n == denoms.len(),
            i <= n,
            forall|j: int| 0 <= j < i ==> denoms@[j].denom@ != denom@,
        decreases n - i,
    {
        if denoms[i].denom == *denom {
            return Some(i);
        }
        i = i + 1;
    }
    None
}

/// Checks a swap request up to the reserve check and prices it.
///
/// `funds` are the coins sent with the request and `rate` the current rate in cents.
pub fn plan_swap(config: &Config, state: &State, funds: &Vec<Coin>, min_amts_out: u128, rate: u64) -> (r:
    Result<SwapPlan, ContractError>)
    ensures
        state.paused ==> r == Err::<SwapPlan, _>(ContractError::Paused),
        !state.paused && funds.len() == 0 ==> r == Err::<SwapPlan, _>(ContractError::NoFunds),
        !state.paused && funds.len() > 1 ==> r == Err::<SwapPlan, _>(
            ContractError::MultipleFunds,
        ),
        !state.paused && funds.len() == 1 && funds[0].amount == 0 ==> r == Err::<SwapPlan, _>(
            ContractError::ZeroAmount,
        ),
        !state.paused && funds.len() == 1 && funds[0].amount > 0 && !is_accepted(
            config.accepted_denoms@,
            funds[0].denom@,
        ) ==> (r matches Err(ContractError::UnsupportedDenom { denom }) && denom@
            == funds[0].denom@),
        !state.paused && funds.len() == 1 && funds[0].amount > 0 && is_accepted(
            config.accepted_denoms@,
            funds[0].denom@,
        ) && rate > config.ceiling_price_cents ==> r == Err::<SwapPlan, _>(
            ContractError::PriceOutOfBounds {
                price: rate,
                floor: config.floor_price_cents,
                ceiling: config.ceiling_price_cents,
            },
        ),
        !state.paused && funds.len() == 1 && funds[0].amount > 0 && is_accepted(
            config.accepted_denoms@,
            funds[0].denom@,
        ) && rate <= config.ceiling_price_cents ==> (exists|i: int|
            is_first_denom(config.accepted_denoms@, funds[0].denom@, i) && {
                let input = funds[0].amount;
                let upc = config.accepted_denoms@[i].usd_micro_cents_per_base;
                &&& input * upc > u128::MAX || rate == 0 ==> r == Err::<SwapPlan, _>(
                    ContractError::Overflow,
                )
                &&& input * upc <= u128::MAX && rate > 0 && gross_amts(
                    input,
                    upc,
                    rate,
                ) == 0 ==> r == Err::<SwapPlan, _>(ContractError::ZeroAmount)
                &&& input * upc <= u128::MAX && rate > 0 && 0 < gross_amts(
                    input,
                    upc,
                    rate,
                ) < min_amts_out ==> (r matches Err(
                    ContractError::SlippageExceeded { min, got },
                ) && min@ == decimal(min_amts_out as nat) && got@ == decimal(
                    gross_amts(input, upc, rate) as nat,
                ))
                &&& input * upc <= u128::MAX && rate > 0 && gross_amts(
                    input,
                    upc,
                    rate,
                ) > 0 && gross_amts(input, upc, rate) >= min_amts_out ==> (r matches Ok(p) && {
                    &&& p.input_denom == funds[0].denom
                    &&& p.input == input
                    &&& p.denom_index == i
                    &&& p.rate_cents == rate
                    &&& p.amts_out == gross_amts(input, upc, rate)
                    &&& p.rebate == rebate_amount(input)
                    &&& p.lp_amount == lp_amount(input)
                    &&& p.validator_amount == validator_amount(input)
                })
            }),
{
    if state.paused {
        return Err(ContractError::Paused);
    }
    if funds.len() == 0 {
        return Err(ContractError::NoFunds);
    }
    if funds.len() > 1 {
        return Err(ContractError::MultipleFunds);
    }
    let coin = &funds[0];
    if coin.amount == 0 {
        return Err(ContractError::ZeroAmount);
    }
    let idx = match find_denom(&config.accepted_denoms, &coin.denom) {
        Some(i) => i,
        None => {
            return Err(ContractError::UnsupportedDenom { denom: coin.denom.clone() });
        },
    };
    if rate > config.ceiling_price_cents {
        return Err(
            ContractError::PriceOutOfBounds {
                price: rate,
                floor: config.floor_price_cents,
                ceiling: config.ceiling_price_cents,
            },
        );
    }
    let input = coin.amount;
    let upc = config.accepted_denoms[idx].usd_micro_cents_per_base as u128;
    let numerator: u128 = match input.checked_mul(upc) {
        Some(n) => n,
        None => {
            return Err(ContractError::Overflow);
        },
    };
    if rate == 0 {
        return Err(ContractError::Overflow);
    }
    let gross = numerator / (rate as u128);
    if gross == 0 {
        return Err(ContractError::ZeroAmount);
    }
    let rebate = bps_of(input, REBATE_BPS);
    let net_fee = bps_of(input, NET_FEE_BPS);
    let lp = net_fee * LP_SPLIT / 100;
    let val = net_fee * VAL_SPLIT / 100;
    if gross < min_amts_out {
        return Err(
            ContractError::SlippageExceeded {
                min: u128_to_string(min_amts_out),
                got: u128_to_string(gross),
            },
        );
    }
    Ok(
        SwapPlan {
            input_denom: coin.denom.clone(),
            input,
            denom_index: idx,
            rate_cents: rate,
            amts_out: gross,
            rebate,
            lp_amount: lp,
            validator_amount: val,
        },
    )
}

/// Settles a planned swap against the contract's AMTS reserve balance: the totals grow
/// and the transfers of `swap_sends` are produced.
pub fn settle_swap(config: &Config, state: State, plan: SwapPlan, sender: &String, reserve: u128) -> (r:
    Result<SwapOutcome, ContractError>)
    requires
        reserve >= plan.amts_out ==> state.total_swaps < u64::MAX && state.total_amts_dispensed
            + plan.amts_out <= u128::MAX && state.total_usdc_received + plan.input <= u128::MAX,
    ensures
        reserve < plan.amts_out ==> (r matches Err(ContractError::InsufficientReserve { need, have })
            && need@ == decimal(plan.amts_out as nat) && have@ == decimal(reserve as nat)),
        reserve >= plan.amts_out ==> (r matches Ok(o) && o.state == (State {
            paused: state.paused,
            total_swaps: (state.total_swaps + 1) as u64,
            total_amts_dispensed: (state.total_amts_dispensed + plan.amts_out) as u128,
            total_usdc_received: (state.total_usdc_received + plan.input) as u128,
        }) && o.sends@ == swap_sends(*config, *sender, plan)),
{
    if reserve < plan.amts_out {
        return Err(
            ContractError::InsufficientReserve {
                need: u128_to_string(plan.amts_out),
                have: u128_to_string(reserve),
            },
        );
    }
    let mut sends: Vec<BankSend> = Vec::new();
    sends.push(
        BankSend {
            to_address: sender.clone(),
            coin: Coin { denom: config.amts_denom.clone(), amount: plan.amts_out },
        },
    );
    if plan.rebate > 0 {
        sends.push(
            BankSend {
                to_address: sender.clone(),
                coin: Coin { denom: plan.input_denom.clone(), amount: plan.rebate },
            },
        );
    }
    if plan.lp_amount > 0 {
        let dest = match &config.dex_contract_address {
            Some(d) => d.clone(),
            None => config.community_pool_address.clone(),
        };
        sends.push(
            BankSend {
                to_address: dest,
                coin: Coin { denom: plan.input_denom.clone(), amount: plan.lp_amount },
            },
        );
    }
    if plan.validator_amount > 0 {
        sends.push(
            BankSend {
                to_address: config.fee_collector_address.clone(),
                coin: Coin { denom: plan.input_denom.clone(), amount: plan.validator_amount },
            },
        );
    }
    let new_state = State {
        paused: state.paused,
        total_swaps: state.total_swaps + 1,
        total_amts_dispensed: state.total_amts_dispensed + plan.amts_out,
        total_usdc_received: state.total_usdc_received + plan.input,
    };
    Ok(SwapOutcome { state: new_state, sends })
}

fn is_governance(config: &Config, sender: &String) -> (r: bool)
    ensures
        r == (sender@ == config.governance_address@),
{
    *sender == config.governance_address
}

/// Pauses or resumes swaps (governance only).
pub fn set_paused(config: &Config, state: State, sender: &String, paused: bool) -> (r: Result<
    State,
    ContractError,
>)
    ensures
        sender@ != config.governance_address@ ==> r == Err::<State, _>(
            ContractError::Unauthorized,
        ),
        sender@ == config.governance_address@ ==> r == Ok::<State, ContractError>(
            State { paused, ..state },
        ),
{
    if !is_governance(config, sender) {
        return Err(ContractError::Unauthorized);
    }
    Ok(State { paused, ..state })
}

/// Sets the ceiling price (governance only).
pub fn update_ceiling(config: Config, sender: &String, new_ceiling_cents: u64) -> (r: Result<
    Config,
    ContractError,
>)
    ensures
        sender@ != config.governance_address@ ==> r == Err::<Config, _>(
            ContractError::Unauthorized,
        ),
        sender@ == config.governance_address@ ==> r == Ok::<Config, ContractError>(
            Config { ceiling_price_cents: new_ceiling_cents, ..config },
        ),
{
    if !is_governance(&config, sender) {
        return Err(ContractError::Unauthorized);
    }
    let mut c = config;
    c.ceiling_price_cents = new_ceiling_cents;
    Ok(c)
}

/// Replaces the accepted denominations (governance only).
pub fn update_denoms(config: Config, sender: &String, denoms: Vec<AcceptedDenom>) -> (r: Result<
    Config,
    ContractError,
>)
    ensures
        sender@ != config.governance_address@ ==> r == Err::<Config, _>(
            ContractError::Unauthorized,
        ),
        sender@ == config.governance_address@ ==> r == Ok::<Config, ContractError>(
            Config { accepted_denoms: denoms, ..config },
        ),
{
    if !is_governance(&config, sender) {
        return Err(ContractError::Unauthorized);
    }
    let mut c = config;
    c.accepted_denoms = denoms;
    Ok(c)
}

/// Updates where fees go (governance only): the community pool and fee collector are
/// replaced when given, the DEX address is always replaced.
pub fn update_fee_routing(
    config: Config,
    sender: &String,
    community_pool_address: Option<String>,
    fee_collector_address: Option<String>,
    dex_contract_address: Option<String>,
) -> (r: Result<Config, ContractError>)
    ensures
        sender@ != config.governance_address@ ==> r == Err::<Config, _>(
            ContractError::Unauthorized,
        ),
        sender@ == config.governance_address@ ==> r == Ok::<Config, ContractError>(
            Config {
                community_pool_address: match community_pool_address {
                    Some(a) => a,
                    None => config.community_pool_address,
                },
                fee_collector_address: match fee_collector_address {
                    Some(a) => a,
                    None => config.fee_collector_address,
                },
                dex_contract_address,
                ..config
            },
        ),
{
    if !is_governance(&config, sender) {
        return Err(ContractError::Unauthorized);
    }
    let mut c = config;
    if let Some(a) = community_pool_address {
        c.community_pool_address = a;
    }
    if let Some(a) = fee_collector_address {
        c.fee_collector_address = a;
    }
    c.dex_contract_address = dex_contract_address;
    Ok(c)
}

/// Replaces the oracle address (governance only).
pub fn update_oracle(config: Config, sender: &String, oracle_address: Option<String>) -> (r: Result<
    Config,
    ContractError,
>)
    ensures
        sender@ != config.governance_address@ ==> r == Err::<Config, _>(
            ContractError::Unauthorized,
        ),
        sender@ == config.governance_address@ ==> r == Ok::<Config, ContractError>(
            Config { oracle_address, ..config },
        ),
{
    if !is_governance(&config, sender) {
        return Err(ContractError::Unauthorized);
    }
    let mut c = config;
    c.oracle_address = oracle_address;
    Ok(c)
}

/// The configuration as a query answer.
pub fn query_config(config: Config) -> (r: ConfigResponse)
    ensures
        r == (ConfigResponse {
            amts_denom: config.amts_denom,
            accepted_denoms: config.accepted_denoms,
            floor_price_cents: config.floor_price_cents,
            ceiling_price_cents: config.ceiling_price_cents,
            community_pool_address: config.community_pool_address,
            dex_contract_address: config.dex_contract_address,
            fee_collector_address: config.fee_collector_address,
            oracle_address: config.oracle_address,
            governance_address: config.governance_address,
        }),
{
    ConfigResponse {
        amts_denom: config.amts_denom,
        accepted_denoms: config.accepted_denoms,
        floor_price_cents: config.floor_price_cents,
        ceiling_price_cents: config.ceiling_price_cents,
        community_pool_address: config.community_pool_address,
        dex_contract_address: config.dex_contract_address,
        fee_collector_address: config.fee_collector_address,
        oracle_address: config.oracle_address,
        governance_address: config.governance_address,
    }
}

/// `a * b`, or the largest amount when the product does not fit.
pub open spec fn saturating_mul(a: int, b: int) -> int {
    if a * b > u128::MAX {
        u128::MAX as int
    } else {
        a * b
    }
}

/// AMTS that a quote promises: the swap formula with a saturating product, and zero when
/// the rate is zero.
pub open spec fn quoted_amts(input: u128, upc: u64, rate: u64) -> int {
    if rate == 0 {
        0
    } else {
        saturating_mul(input as int, upc as int) / (rate as int)
    }
}

fn mul_saturating(a: u128, b: u128) -> (r: u128)
    ensures
        r == saturating_mul(a as int, b as int),
{
    match a.checked_mul(b) {
        Some(p) => p,
        None => u128::MAX,
    }
}

/// Quotes a swap of `amount` of `denom` at `rate` cents without checking funds, pause,
/// bounds or reserve.
pub fn query_quote(config: &Config, denom: String, amount: u128, rate: u64) -> (r: Result<
    QuoteResponse,
    StdError,
>)
    requires
        amount * FEE_BPS <= u128::MAX,
    ensures
        !is_accepted(config.accepted_denoms@, denom@) ==> (r matches Err(
            StdError::GenericErr { msg },
        ) && msg@ == "unsupported denom: "@ + denom@),
        is_accepted(config.accepted_denoms@, denom@) ==> (exists|i: int|
            is_first_denom(config.accepted_denoms@, denom@, i) && r == Ok::<QuoteResponse, StdError>(
                QuoteResponse {
                    input_denom: denom,
                    input_amount: amount,
                    amts_out: quoted_amts(
                        amount,
                        config.accepted_denoms@[i].usd_micro_cents_per_base,
                        rate,
                    ) as u128,
                    rate_cents: rate,
                    fee_amount: fee_amount(amount) as u128,
                    rebate_amount: rebate_amount(amount) as u128,
                    net_fee: net_fee_amount(amount) as u128,
                    community_pool_amount: lp_amount(amount) as u128,
                },
            )),
{
    let idx = match find_denom(&config.accepted_denoms, &denom) {
        Some(i) => i,
        None => {
            let mut msg = String::from_str("unsupported denom: ");
            msg.append(denom.as_str());
            return Err(StdError::GenericErr { msg });
        },
    };
    let upc = config.accepted_denoms[idx].usd_micro_cents_per_base as u128;
    let num = mul_saturating(amount, upc);
    let amts_out: u128 = if rate > 0 {
        num / (rate as u128)
    } else {
        0
    };
    let fee = amount * FEE_BPS / BPS_BASE;
    let rebate = amount * REBATE_BPS / BPS_BASE;
    let net = amount * NET_FEE_BPS / BPS_BASE;
    let community = net * LP_SPLIT / 100;
    Ok(
        QuoteResponse {
            input_denom: denom,
            input_amount: amount,
            amts_out,
            rate_cents: rate,
            fee_amount: fee,
            rebate_amount: rebate,
            net_fee: net,
            community_pool_amount: community,
        },
    )
}

/// The pause flag, prices and totals as a query answer, with the current rate.
pub fn query_state(config: &Config, state: &State, current_rate_cents: u64) -> (r: StateResponse)
    ensures
        r == (StateResponse {
            paused: state.paused,
            current_rate_cents,
            floor_price_cents: config.floor_price_cents,
            ceiling_price_cents: config.ceiling_price_cents,
            total_swaps: state.total_swaps,
            total_amts_dispensed: state.total_amts_dispensed,
            total_usdc_received: state.total_usdc_received,
        }),
{
    StateResponse {
        paused: state.paused,
        current_rate_cents,
        floor_price_cents: config.floor_price_cents,
        ceiling_price_cents: config.ceiling_price_cents,
        total_swaps: state.total_swaps,
        total_amts_dispensed: state.total_amts_dispensed,
        total_usdc_received: state.total_usdc_received,
    }
}

} // verus!

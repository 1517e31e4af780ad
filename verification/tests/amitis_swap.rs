use amitis_contracts::amitis_swap::contract::{
    current_rate_cents, instantiate, plan_swap, query_quote, set_paused, settle_swap,
    update_ceiling, update_fee_routing,
};
use amitis_contracts::amitis_swap::error::ContractError;
use amitis_contracts::amitis_swap::msg::{AcceptedDenom, InstantiateMsg};
use amitis_contracts::amitis_swap::state::{Config, State};
use amitis_contracts::common::{BankSend, Coin, StdError};

fn denom(d: &str, upc: u64) -> AcceptedDenom {
    AcceptedDenom { denom: d.to_string(), name: d.to_uppercase(), usd_micro_cents_per_base: upc }
}

fn setup() -> (Config, State) {
    instantiate(InstantiateMsg {
        amts_denom: "uamts".to_string(),
        accepted_denoms: vec![denom("uusdc", 100), denom("uatom", 1_000)],
        floor_price_cents: 750,
        ceiling_price_cents: 1500,
        community_pool_address: "pool".to_string(),
        dex_contract_address: None,
        fee_collector_address: "collector".to_string(),
        oracle_address: None,
        governance_address: "gov".to_string(),
    })
}

fn coin(d: &str, amount: u128) -> Coin {
    Coin { denom: d.to_string(), amount }
}

#[test]
fn instantiate_starts_unpaused_with_zero_totals() {
    let (config, state) = setup();
    assert_eq!(config.floor_price_cents, 750);
    assert_eq!(config.governance_address, "gov");
    assert_eq!(
        state,
        State { paused: false, total_swaps: 0, total_amts_dispensed: 0, total_usdc_received: 0 }
    );
}

#[test]
fn rate_falls_back_to_floor_without_oracle() {
    let (config, _) = setup();
    assert_eq!(current_rate_cents(&config, &Some("500000".to_string())), 750);
}

#[test]
fn rate_follows_oracle_and_never_drops_below_floor() {
    let (mut config, _) = setup();
    config.oracle_address = Some("oracle".to_string());
    // 500_000 AMTS per VPT: AMTS doubled to $15.00.
    assert_eq!(current_rate_cents(&config, &Some("500000".to_string())), 1500);
    // 2_000_000 AMTS per VPT would be $3.75, below the floor.
    assert_eq!(current_rate_cents(&config, &Some("2000000".to_string())), 750);
    // Unparseable figure counts as 1_000_000: $7.50.
    assert_eq!(current_rate_cents(&config, &Some("n/a".to_string())), 750);
    assert_eq!(current_rate_cents(&config, &Some("+250000".to_string())), 3000);
    assert_eq!(current_rate_cents(&config, &Some("0".to_string())), 750);
    assert_eq!(current_rate_cents(&config, &None), 750);
}

#[test]
fn swap_prices_and_routes_fees() {
    let (config, state) = setup();
    let funds = vec![coin("uusdc", 7_500_000)];
    let plan = plan_swap(&config, &state, &funds, 1, 750).unwrap();
    // 7_500_000 uusdc x 100 / 750 cents = 1_000_000 uamts = 1 AMTS
    assert_eq!(plan.amts_out, 1_000_000);
    assert_eq!(plan.rebate, 18_000);
    assert_eq!(plan.lp_amount, 3_600);
    assert_eq!(plan.validator_amount, 900);
    let outcome = settle_swap(&config, state, plan, &"buyer".to_string(), 5_000_000).unwrap();
    assert_eq!(outcome.state.total_swaps, 1);
    assert_eq!(outcome.state.total_amts_dispensed, 1_000_000);
    assert_eq!(outcome.state.total_usdc_received, 7_500_000);
    assert_eq!(
        outcome.sends,
        vec![
            BankSend { to_address: "buyer".to_string(), coin: coin("uamts", 1_000_000) },
            BankSend { to_address: "buyer".to_string(), coin: coin("uusdc", 18_000) },
            BankSend { to_address: "pool".to_string(), coin: coin("uusdc", 3_600) },
            BankSend { to_address: "collector".to_string(), coin: coin("uusdc", 900) },
        ]
    );
}

#[test]
fn swap_sends_liquidity_to_dex_when_configured_and_skips_zero_fees() {
    let (mut config, state) = setup();
    config.dex_contract_address = Some("dex".to_string());
    config.accepted_denoms.push(denom("uwei", 1));
    // 700 uwei at 1 each: 700 / 750 = 0 -> zero amount
    let small = vec![coin("uwei", 700)];
    assert_eq!(plan_swap(&config, &state, &small, 0, 750), Err(ContractError::ZeroAmount));
    // 1_000_000 uatom at 1_000 each: 1e9 / 750 = 1_333_333
    let funds = vec![coin("uatom", 1_000_000)];
    let plan = plan_swap(&config, &state, &funds, 0, 750).unwrap();
    assert_eq!(plan.amts_out, 1_333_333);
    let outcome = settle_swap(&config, state, plan, &"buyer".to_string(), 10_000_000).unwrap();
    assert_eq!(outcome.sends[2].to_address, "dex");
    assert_eq!(outcome.sends.len(), 4);
    // 1_000 uatom: the liquidity and validator parts round to zero and are not sent
    let tiny = plan_swap(&config, &state, &vec![coin("uatom", 1_000)], 0, 750).unwrap();
    assert_eq!(tiny.rebate, 2);
    let outcome = settle_swap(&config, state, tiny, &"buyer".to_string(), 10_000_000).unwrap();
    assert_eq!(outcome.sends.len(), 2);
}

#[test]
fn swap_fees_are_exact_for_amounts_near_the_limit() {
    let (mut config, state) = setup();
    config.accepted_denoms.push(denom("uwei", 1));
    let input = u128::MAX - 5;
    let plan = plan_swap(&config, &state, &vec![coin("uwei", input)], 0, 750).unwrap();
    assert_eq!(plan.amts_out, input / 750);
    assert_eq!(plan.rebate, (input / 10_000) * 24 + (input % 10_000) * 24 / 10_000);
    let net = (input / 10_000) * 6 + (input % 10_000) * 6 / 10_000;
    assert_eq!(plan.lp_amount, net * 80 / 100);
}

#[test]
fn swap_errors_in_order() {
    let (config, state) = setup();
    let paused = State { paused: true, ..state };
    assert_eq!(plan_swap(&config, &paused, &vec![], 0, 750), Err(ContractError::Paused));
    assert_eq!(plan_swap(&config, &state, &vec![], 0, 750), Err(ContractError::NoFunds));
    assert_eq!(
        plan_swap(&config, &state, &vec![coin("uusdc", 1), coin("uatom", 1)], 0, 750),
        Err(ContractError::MultipleFunds)
    );
    assert_eq!(
        plan_swap(&config, &state, &vec![coin("uusdc", 0)], 0, 750),
        Err(ContractError::ZeroAmount)
    );
    assert_eq!(
        plan_swap(&config, &state, &vec![coin("uosmo", 5)], 0, 750),
        Err(ContractError::UnsupportedDenom { denom: "uosmo".to_string() })
    );
    assert_eq!(
        plan_swap(&config, &state, &vec![coin("uusdc", 5)], 0, 1501),
        Err(ContractError::PriceOutOfBounds { price: 1501, floor: 750, ceiling: 1500 })
    );
    assert_eq!(
        plan_swap(&config, &state, &vec![coin("uusdc", u128::MAX / 10)], 0, 750),
        Err(ContractError::Overflow)
    );
    assert_eq!(
        plan_swap(&config, &state, &vec![coin("uusdc", 5)], 0, 0),
        Err(ContractError::Overflow)
    );
    assert_eq!(
        plan_swap(&config, &state, &vec![coin("uusdc", 7_500_000)], 1_000_001, 750),
        Err(ContractError::SlippageExceeded { min: "1000001".to_string(), got: "1000000".to_string() })
    );
    let plan = plan_swap(&config, &state, &vec![coin("uusdc", 7_500_000)], 0, 750).unwrap();
    assert_eq!(
        settle_swap(&config, state, plan, &"buyer".to_string(), 999_999),
        Err(ContractError::InsufficientReserve { need: "1000000".to_string(), have: "999999".to_string() })
    );
}

#[test]
fn quote_matches_swap() {
    let (config, state) = setup();
    let q = query_quote(&config, "uusdc".to_string(), 7_500_000, 750).unwrap();
    let plan = plan_swap(&config, &state, &vec![coin("uusdc", 7_500_000)], 0, 750).unwrap();
    assert_eq!(q.amts_out, plan.amts_out);
    assert_eq!(q.rebate_amount, plan.rebate);
    assert_eq!(q.community_pool_amount, plan.lp_amount);
    assert_eq!(q.amts_out, 1_000_000);
    assert_eq!(q.fee_amount, 22_500);
    assert_eq!(q.net_fee, 4_500);
    assert_eq!(
        query_quote(&config, "uosmo".to_string(), 1, 750),
        Err(StdError::GenericErr { msg: "unsupported denom: uosmo".to_string() })
    );
    // the quote saturates where the swap refuses
    let big = query_quote(&config, "uusdc".to_string(), u128::MAX / 30, 750).unwrap();
    assert_eq!(big.amts_out, u128::MAX / 750);
}

#[test]
fn governance_only_changes() {
    let (config, state) = setup();
    let stranger = "stranger".to_string();
    let gov = "gov".to_string();
    assert_eq!(set_paused(&config, state, &stranger, true), Err(ContractError::Unauthorized));
    let paused = set_paused(&config, state, &gov, true).unwrap();
    assert!(paused.paused);
    let resumed = set_paused(&config, paused, &gov, false).unwrap();
    assert_eq!(resumed, state);
    assert_eq!(update_ceiling(config.clone(), &stranger, 9), Err(ContractError::Unauthorized));
    assert_eq!(update_ceiling(config.clone(), &gov, 9).unwrap().ceiling_price_cents, 9);
    let routed = update_fee_routing(config.clone(), &gov, None, Some("c2".to_string()), Some("d".to_string())).unwrap();
    assert_eq!(routed.community_pool_address, "pool");
    assert_eq!(routed.fee_collector_address, "c2");
    assert_eq!(routed.dex_contract_address, Some("d".to_string()));
    let cleared = update_fee_routing(routed, &gov, None, None, None).unwrap();
    assert_eq!(cleared.dex_contract_address, None);
}

#[test]
fn oracle_figures_parse_as_unsigned_decimals() {
    let (mut config, _) = setup();
    config.oracle_address = Some("oracle".to_string());
    config.floor_price_cents = 1;
    let rate = |a: &str| current_rate_cents(&config, &Some(a.to_string()));
    assert_eq!(rate("1500000"), 500);
    assert_eq!(rate("001500000"), 500);
    assert_eq!(rate("+1500000"), 500);
    // anything that does not parse counts as 1_000_000: 750 cents
    assert_eq!(rate(""), 750);
    assert_eq!(rate("+"), 750);
    assert_eq!(rate("-1500000"), 750);
    assert_eq!(rate("15 00000"), 750);
    assert_eq!(rate("340282366920938463463374607431768211456"), 750);
    // the largest figure parses and prices AMTS at the floor
    assert_eq!(rate("340282366920938463463374607431768211455"), 1);
}

#[test]
fn amounts_render_in_decimal_in_errors() {
    let (config, state) = setup();
    let plan = plan_swap(&config, &state, &vec![coin("uusdc", 7_500_000)], 0, 750).unwrap();
    assert_eq!(
        settle_swap(&config, state, plan, &"buyer".to_string(), 0),
        Err(ContractError::InsufficientReserve { need: "1000000".to_string(), have: "0".to_string() })
    );
    let plan = plan_swap(&config, &state, &vec![coin("uusdc", 7_500_000)], 0, 750).unwrap();
    assert_eq!(
        plan_swap(&config, &state, &vec![coin("uusdc", 7_500_000)], u128::MAX, 750),
        Err(ContractError::SlippageExceeded {
            min: "340282366920938463463374607431768211455".to_string(),
            got: "1000000".to_string()
        })
    );
    assert_eq!(plan.amts_out, 1_000_000);
}

use amitis_contracts::por_aggregator::msg::ExecuteMsg as AggregatorExecuteMsg;
use amitis_contracts::por_onchain::contract::{
    active_sources, instantiate, remove_source, take_snapshot, total_reserve, update_aggregator,
};
use amitis_contracts::por_onchain::error::ContractError;
use amitis_contracts::por_onchain::msg::InstantiateMsg;
use amitis_contracts::por_onchain::state::ReserveSource;

fn s(x: &str) -> String {
    x.to_string()
}

fn source(id: &str, active: bool) -> ReserveSource {
    ReserveSource {
        id: s(id),
        token_contract: format!("cw20-{}", id),
        label: format!("{} on Amitis", id),
        active,
        last_balance: 0,
        last_snapshot_height: 0,
    }
}

#[test]
fn snapshot_sums_active_sources_and_reports() {
    let msg = InstantiateMsg {
        admin: s("admin"),
        aggregator_addr: s("agg"),
        issuer_addr: s("issuer"),
        description: s("d"),
        initial_sources: vec![source("usdc", true), source("old", false), source("usdt", true)],
    };
    let o = instantiate(msg, Ok(s("admin")), Ok(s("agg")), Ok(s("issuer"))).unwrap();
    let active = active_sources(&o.sources);
    let ids: Vec<String> = active.iter().map(|x| x.id.clone()).collect();
    assert_eq!(ids, vec![s("usdc"), s("usdt")]);
    let snap = take_snapshot(&o.config, &active, &vec![1_500, 2_500], 77);
    assert_eq!(snap.total, 4_000);
    assert_eq!(snap.sources[1].last_balance, 2_500);
    assert_eq!(snap.sources[1].last_snapshot_height, 77);
    assert_eq!(snap.report.contract_addr, "agg");
    assert_eq!(
        snap.report.msg,
        AggregatorExecuteMsg::SubmitReserve { amount: 4_000, reference: Some(s("onchain-snapshot-block-77")) }
    );
    let live = total_reserve(&active, &vec![1_500, 2_500], 78);
    assert_eq!(live.total, snap.total);
    assert_eq!(live.sources[0].token_contract, "cw20-usdc");
    assert_eq!(live.snapshot_height, 78);
}

#[test]
fn source_and_config_management() {
    let msg = InstantiateMsg {
        admin: s("admin"),
        aggregator_addr: s("agg"),
        issuer_addr: s("issuer"),
        description: s("d"),
        initial_sources: vec![],
    };
    assert_eq!(
        instantiate(msg.clone(), Ok(s("admin")), Ok(s("agg")), Err(s("bad issuer"))),
        Err(ContractError::InvalidAddress { msg: s("bad issuer") })
    );
    let cfg = instantiate(msg, Ok(s("admin")), Ok(s("agg")), Ok(s("issuer"))).unwrap().config;
    assert_eq!(remove_source(&cfg, &s("eve"), s("x"), None), Err(ContractError::Unauthorized));
    assert_eq!(remove_source(&cfg, &s("admin"), s("x"), None), Err(ContractError::SourceNotFound { id: s("x") }));
    assert!(!remove_source(&cfg, &s("admin"), s("usdc"), Some(source("usdc", true))).unwrap().active);
    assert_eq!(update_aggregator(cfg.clone(), &s("admin"), Ok(s("agg2"))).unwrap().aggregator_addr, "agg2");
    assert_eq!(
        update_aggregator(cfg, &s("admin"), Err(s("bad"))),
        Err(ContractError::InvalidAddress { msg: s("bad") })
    );
}

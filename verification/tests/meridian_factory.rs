use amitis_contracts::clssc::msg::ExecuteMsg as ClsscExecuteMsg;
use amitis_contracts::meridian_factory::contract::{
    authorize_report, complete_deployment, decide_issuer, reply_address, deploy_stablecoin, extract_contract_addr, instantiate,
    list_deployments, list_issuers, record_report, register_issuer, registry_stats,
    toggle_contract, update_config, IssuerDecision, ReplyEvent, ReportKind,
};
use amitis_contracts::meridian_factory::error::ContractError;
use amitis_contracts::meridian_factory::msg::InstantiateMsg;
use amitis_contracts::meridian_factory::state::{
    Config, DeploymentRecord, IssuerRecord, IssuerStatus, ReserveType,
};

fn s(x: &str) -> String {
    x.to_string()
}

fn config() -> Config {
    let msg = InstantiateMsg {
        admin: s("admin"),
        clssc_code_id: 7,
        mint_fee_bps: 10,
        burn_fee_bps: 20,
        fee_collector: s("fees"),
    };
    instantiate(&msg, Ok(s("admin")), Ok(s("fees"))).unwrap().config
}

fn issuer(status: IssuerStatus) -> IssuerRecord {
    let mut r = register_issuer(&config(), &s("acme"), false, s("Acme Ltd"), s("DE"), s("kyc-1"), ReserveType::USDC, s("uri"), 12)
        .unwrap();
    r.status = status;
    r
}

fn deployment() -> DeploymentRecord {
    deploy_stablecoin(config(), &s("acme"), Some(issuer(IssuerStatus::Approved)), 4, &s("factory"), 99, s("Acme Dollar"), s("ACUSD"), 6, s("USD"), ReserveType::USDC, s("uri"), false, vec![])
        .unwrap()
        .deployment
}

#[test]
fn instantiate_checks_fees_and_seeds_assets() {
    let mut msg = InstantiateMsg {
        admin: s("admin"),
        clssc_code_id: 7,
        mint_fee_bps: 10_001,
        burn_fee_bps: 20_000,
        fee_collector: s("fees"),
    };
    assert_eq!(instantiate(&msg, Ok(s("admin")), Ok(s("fees"))), Err(ContractError::InvalidBps { bps: 10_001 }));
    msg.mint_fee_bps = 10_000;
    assert_eq!(instantiate(&msg, Ok(s("admin")), Ok(s("fees"))), Err(ContractError::InvalidBps { bps: 20_000 }));
    msg.burn_fee_bps = 0;
    assert_eq!(
        instantiate(&msg, Ok(s("admin")), Err(s("bad"))),
        Err(ContractError::InvalidAddress { msg: s("bad") })
    );
    let o = instantiate(&msg, Ok(s("admin")), Ok(s("fees"))).unwrap();
    assert_eq!(o.next_deployment_id, 1);
    assert!(o.config.accepting_registrations);
    let ids: Vec<String> = o.approved_assets.iter().map(|a| a.id.clone()).collect();
    assert_eq!(ids, vec![s("USD_FIAT"), s("T_BILLS"), s("USDC"), s("USDT"), s("EUR_FIAT"), s("GBP_FIAT")]);
    assert_eq!(o.approved_assets[2].name, "USD Coin (USDC)");
}

#[test]
fn registration_and_decisions() {
    let mut cfg = config();
    let r = issuer(IssuerStatus::Pending);
    assert_eq!(r.status, IssuerStatus::Pending);
    assert_eq!(r.registered_at, 12);
    assert_eq!(
        register_issuer(&cfg, &s("acme"), true, s(""), s(""), s(""), ReserveType::Mixed, s(""), 1),
        Err(ContractError::IssuerAlreadyRegistered { address: s("acme") })
    );
    cfg.accepting_registrations = false;
    assert_eq!(
        register_issuer(&cfg, &s("acme"), false, s(""), s(""), s(""), ReserveType::Mixed, s(""), 1),
        Err(ContractError::RegistrationsClosed)
    );
    let cfg = config();
    let none: Vec<DeploymentRecord> = vec![];
    let approved = decide_issuer(&cfg, &s("admin"), &s("acme"), Ok(s("acme")), Some(r.clone()), &none, IssuerDecision::Approve, 50)
        .unwrap();
    assert_eq!(approved.issuer.status, IssuerStatus::Approved);
    assert_eq!(approved.issuer.approved_at, Some(50));
    assert!(approved.frozen.is_empty() && approved.calls.is_empty());
    let revoked = decide_issuer(&cfg, &s("admin"), &s("acme"), Ok(s("acme")), Some(approved.issuer), &none, IssuerDecision::Revoke, 60)
        .unwrap()
        .issuer;
    assert_eq!(revoked.status, IssuerStatus::Revoked);
    // a revoked issuer is barred for good
    for d in [IssuerDecision::Reinstate, IssuerDecision::Approve, IssuerDecision::Suspend] {
        let after = decide_issuer(&cfg, &s("admin"), &s("acme"), Ok(s("acme")), Some(revoked.clone()), &none, d, 70)
            .unwrap();
        assert_eq!(after.issuer, revoked);
        assert!(after.frozen.is_empty() && after.calls.is_empty());
    }
    let suspended = decide_issuer(&cfg, &s("admin"), &s("acme"), Ok(s("acme")), Some(r.clone()), &none, IssuerDecision::Suspend, 70)
        .unwrap()
        .issuer;
    let back = decide_issuer(&cfg, &s("admin"), &s("acme"), Ok(s("acme")), Some(suspended), &none, IssuerDecision::Reinstate, 80)
        .unwrap()
        .issuer;
    assert_eq!(back.status, IssuerStatus::Approved);
    assert_eq!(back.approved_at, None);
    assert_eq!(
        decide_issuer(&cfg, &s("admin"), &s("ghost"), Ok(s("ghost")), None, &none, IssuerDecision::Suspend, 1),
        Err(ContractError::IssuerNotFound { address: s("ghost") })
    );
    assert_eq!(
        decide_issuer(&cfg, &s("eve"), &s("acme"), Ok(s("acme")), Some(r), &none, IssuerDecision::Approve, 1),
        Err(ContractError::Unauthorized)
    );
}

#[test]
fn suspension_freezes_live_contracts() {
    let cfg = config();
    let mut live = deployment();
    live.active = true;
    live.contract_addr = s("coin1");
    let pending = deployment();
    let mut live2 = deployment();
    live2.id = 5;
    live2.active = true;
    live2.contract_addr = s("coin2");
    let ds = vec![live.clone(), pending, live2.clone()];
    let out = decide_issuer(&cfg, &s("admin"), &s("acme"), Ok(s("acme")), Some(issuer(IssuerStatus::Approved)), &ds, IssuerDecision::Suspend, 90)
        .unwrap();
    assert_eq!(out.issuer.status, IssuerStatus::Suspended);
    assert_eq!(out.frozen.len(), 2);
    assert!(!out.frozen[0].active && out.frozen[0].id == live.id);
    assert!(!out.frozen[1].active && out.frozen[1].id == 5);
    assert_eq!(out.calls.len(), 2);
    assert_eq!(out.calls[0].contract_addr, "coin1");
    assert_eq!(out.calls[0].msg, ClsscExecuteMsg::Pause);
    assert_eq!(out.calls[1].contract_addr, "coin2");
    // revocation and approval freeze nothing
    let out = decide_issuer(&cfg, &s("admin"), &s("acme"), Ok(s("acme")), Some(issuer(IssuerStatus::Approved)), &ds, IssuerDecision::Revoke, 90)
        .unwrap();
    assert!(out.frozen.is_empty() && out.calls.is_empty());
}

#[test]
fn deployment_requires_approval_and_builds_stablecoin() {
    let cfg = config();
    let go = |i: Option<IssuerRecord>, uri: &str| {
        deploy_stablecoin(cfg.clone(), &s("acme"), i, 4, &s("factory"), 99, s("Acme Dollar"), s("ACUSD"), 6, s("USD"), ReserveType::USDC, s(uri), true, vec![s("w")])
    };
    assert_eq!(go(None, "uri"), Err(ContractError::IssuerNotFound { address: s("acme") }));
    assert_eq!(
        go(Some(issuer(IssuerStatus::Suspended)), "uri"),
        Err(ContractError::IssuerNotApproved { address: s("acme"), status: s("Suspended") })
    );
    assert_eq!(go(Some(issuer(IssuerStatus::Approved)), ""), Err(ContractError::MissingReserveUri));
    let o = go(Some(issuer(IssuerStatus::Approved)), "uri").unwrap();
    assert_eq!(o.instantiation.code_id, 7);
    assert_eq!(o.instantiation.label, "meridian-acusd-4");
    assert_eq!(o.instantiation.msg.admin, "factory");
    assert_eq!(o.instantiation.msg.initial_minters, vec![(s("acme"), s("issuer-acme"))]);
    assert_eq!(o.instantiation.msg.initial_whitelist, vec![s("w")]);
    assert_eq!(o.deployment.id, 4);
    assert!(!o.deployment.active);
    assert_eq!(o.deployment.contract_addr, "factory");
    assert_eq!(o.next_deployment_id, 5);
    assert_eq!(o.issuer.deployments, 1);
    assert_eq!(o.config.total_deployments, 1);
}

#[test]
fn reply_address_extraction() {
    let ev = |ty: &str, attrs: &[(&str, &str)]| ReplyEvent {
        ty: s(ty),
        attributes: attrs.iter().map(|(k, v)| (s(k), s(v))).collect(),
    };
    let events = vec![
        ev("message", &[("contract_address", "wrong")]),
        ev("instantiate", &[("code_id", "7")]),
        ev("instantiate", &[("code_id", "7"), ("_contract_address", "coin1"), ("contract_address", "later")]),
    ];
    assert_eq!(extract_contract_addr(&events), Ok(s("coin1")));
    assert_eq!(
        extract_contract_addr(&vec![ev("wasm", &[])]),
        Err(ContractError::InstantiationFailed { msg: s("Could not find contract address in reply events") })
    );
    assert_eq!(reply_address(1, Ok(events.clone())), Ok(Some(s("coin1"))));
    assert_eq!(reply_address(2, Ok(events)), Ok(None));
    assert_eq!(reply_address(7, Err(s("boom"))), Ok(None));
    assert_eq!(
        reply_address(1, Err(s("boom"))),
        Err(ContractError::InstantiationFailed { msg: s("boom") })
    );
    assert_eq!(
        reply_address(1, Ok(vec![ev("wasm", &[])])),
        Err(ContractError::InstantiationFailed { msg: s("Could not find contract address in reply events") })
    );
    let (id, active) = complete_deployment(Ok(s("coin1")), 5, deployment()).unwrap();
    assert_eq!(id, 4);
    assert!(active.active);
    assert_eq!(active.contract_addr, s("coin1"));
    assert_eq!(
        complete_deployment(Err(s("bad")), 5, deployment()),
        Err(ContractError::InvalidAddress { msg: s("bad") })
    );
}

#[test]
fn reports_take_fees_and_track_supply() {
    let cfg = config();
    assert_eq!(authorize_report(0, Some(1)), Err(ContractError::ZeroAmount));
    assert_eq!(authorize_report(5, None), Err(ContractError::UnauthorizedCallback));
    assert_eq!(authorize_report(5, Some(3)), Ok(3));
    let dep = deployment();
    let minted = record_report(cfg.clone(), ReportKind::Mint, dep, Ok(s("acme")), Some(issuer(IssuerStatus::Approved)), 100_000).unwrap();
    // 10 bps of 100_000
    assert_eq!(minted.fee, 100);
    assert_eq!(minted.deployment.circulating_supply, 100_000);
    assert_eq!(minted.deployment.lifetime_fees, 100);
    assert_eq!(minted.issuer.as_ref().unwrap().lifetime_minted, 100_000);
    assert_eq!(minted.config.total_fees_collected, 100);
    let burned = record_report(minted.config, ReportKind::Burn, minted.deployment, Ok(s("acme")), None, 150_000).unwrap();
    // 20 bps of 150_000; supply does not go below zero
    assert_eq!(burned.fee, 300);
    assert_eq!(burned.deployment.circulating_supply, 0);
    assert_eq!(burned.deployment.lifetime_burned, 150_000);
    assert_eq!(burned.issuer, None);
    assert_eq!(burned.config.total_fees_collected, 400);
    assert_eq!(
        record_report(cfg.clone(), ReportKind::Mint, deployment(), Err(s("bad")), None, 1),
        Err(ContractError::InvalidAddress { msg: s("bad") })
    );
    // a stablecoin reports only its own issuer's events: another issuer is refused
    let mut other = issuer(IssuerStatus::Approved);
    other.address = s("globex");
    assert_eq!(
        record_report(cfg, ReportKind::Mint, deployment(), Ok(s("globex")), Some(other), 100),
        Err(ContractError::UnauthorizedCallback)
    );
}

#[test]
fn pause_toggle_and_config() {
    let (dep, call) = toggle_contract(deployment(), s("coin1"), true);
    assert!(!dep.active);
    assert_eq!(call.msg, ClsscExecuteMsg::Pause);
    let (dep, call) = toggle_contract(dep, s("coin1"), false);
    assert!(dep.active);
    assert_eq!(call.msg, ClsscExecuteMsg::Unpause);
    assert_eq!(
        update_config(config(), &s("admin"), Some(50_000), None, None, Some(false), None),
        Err(ContractError::InvalidBps { bps: 50_000 })
    );
    assert_eq!(
        update_config(config(), &s("admin"), Some(100), Some(10_001), None, None, None),
        Err(ContractError::InvalidBps { bps: 10_001 })
    );
    let c = update_config(config(), &s("admin"), Some(10_000), None, None, Some(false), None).unwrap();
    assert_eq!(c.mint_fee_bps, 10_000);
    assert!(!c.accepting_registrations);
}

#[test]
fn listings_and_stats() {
    let mut a = issuer(IssuerStatus::Approved);
    a.address = s("a");
    let mut b = issuer(IssuerStatus::Pending);
    b.address = s("b");
    let mut c = issuer(IssuerStatus::Approved);
    c.address = s("c");
    let all = vec![a, b, c];
    let page = list_issuers(&all, Some(Ok(s("a"))), Some(1)).unwrap();
    assert_eq!(page.len(), 1);
    assert_eq!(page[0].address, "b");
    let stats = registry_stats(&config(), &all);
    assert_eq!((stats.total_issuers, stats.approved_issuers), (3, 2));
    let mut d1 = deployment();
    d1.id = 1;
    let mut d2 = deployment();
    d2.id = 2;
    let ds = vec![d1, d2];
    assert_eq!(list_deployments(&ds, None, None).len(), 2);
    assert_eq!(list_deployments(&ds, Some(1), None)[0].id, 2);
}

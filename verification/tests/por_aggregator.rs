use amitis_contracts::por_aggregator::contract::{
    add_oracle, admin_override, instantiate, list_oracles, mint_check, round_history,
    submit_reserve, update_config,
};
use amitis_contracts::por_aggregator::error::ContractError;
use amitis_contracts::por_aggregator::msg::{InstantiateMsg, OracleInfo};
use amitis_contracts::por_aggregator::state::{Config, OracleSubmission, ReserveStatus, RoundData};
use amitis_contracts::common::StdError;

fn s(x: &str) -> String {
    x.to_string()
}

fn config(min_submissions: u64) -> Config {
    let msg = InstantiateMsg {
        admin: s("admin"),
        factory: None,
        staleness_threshold_secs: None,
        min_submissions: Some(min_submissions),
        description: s("USD reserves"),
        denomination: s("USD"),
        initial_oracles: vec![(s("o1"), s("bank")), (s("o2"), s("auditor"))],
    };
    instantiate(&msg, Ok(s("admin")), None, vec![Ok(s("o1")), Ok(s("o2"))]).unwrap().config
}

fn sub(o: &str, v: u128) -> OracleSubmission {
    OracleSubmission { oracle: s(o), value: v, timestamp: 1 }
}

fn round(reserve: u128, updated_at: u64) -> RoundData {
    RoundData {
        round_id: 1,
        reserve_amount: reserve,
        started_at: updated_at,
        updated_at,
        block_height: 10,
        submission_count: 1,
        status: ReserveStatus::Active,
    }
}

#[test]
fn instantiate_defaults() {
    let msg = InstantiateMsg {
        admin: s("admin"),
        factory: Some(s("factory")),
        staleness_threshold_secs: None,
        min_submissions: None,
        description: s("d"),
        denomination: s("USD"),
        initial_oracles: vec![(s("o1"), s("bank"))],
    };
    let o = instantiate(&msg, Ok(s("admin")), Some(Ok(s("factory"))), vec![Ok(s("o1"))]).unwrap();
    assert_eq!(o.config.staleness_threshold_secs, 86_400);
    assert_eq!(o.config.min_submissions, 1);
    assert_eq!(o.config.factory, Some(s("factory")));
    assert_eq!(o.round_id, 0);
    assert_eq!(o.oracles, vec![(s("o1"), s("bank"))]);
    assert_eq!(
        instantiate(&msg, Ok(s("admin")), Some(Err(s("bad f"))), vec![Ok(s("o1"))]),
        Err(ContractError::InvalidAddress { msg: s("bad f") })
    );
}

#[test]
fn submissions_finalise_at_the_median() {
    let cfg = config(3);
    let pending = vec![sub("o1", 100), sub("o2", 300)];
    let o = submit_reserve(&cfg, &s("o3"), true, false, &pending, 7, 1_000, 55, 200).unwrap();
    assert_eq!(o.submission_count, 3);
    let f = o.finalized.unwrap();
    assert_eq!(f.round.reserve_amount, 200);
    assert_eq!(f.round.round_id, 8);
    assert_eq!(f.round.submission_count, 3);
    assert_eq!(f.round.updated_at, 1_000);
    assert_eq!(f.round.block_height, 55);
    assert_eq!(f.evicted_round, None);
    // a lone outlier cannot move the median out of the honest band
    let pending = vec![sub("o1", 1_000), sub("o2", 1_010)];
    let o = submit_reserve(&cfg, &s("o3"), true, false, &pending, 7, 1, 1, u128::MAX).unwrap();
    assert_eq!(o.finalized.unwrap().round.reserve_amount, 1_010);
}

#[test]
fn even_count_takes_upper_median_and_history_evicts() {
    let cfg = config(2);
    let o = submit_reserve(&cfg, &s("o2"), true, false, &vec![sub("o1", 10)], 100, 5, 5, 20).unwrap();
    let f = o.finalized.unwrap();
    assert_eq!(f.round.reserve_amount, 20);
    assert_eq!(f.round.round_id, 101);
    assert_eq!(f.evicted_round, Some(1));
}

#[test]
fn below_quorum_only_records() {
    let cfg = config(3);
    let o = submit_reserve(&cfg, &s("o2"), true, false, &vec![sub("o1", 10)], 0, 5, 5, 20).unwrap();
    assert_eq!(o.submission_count, 2);
    assert_eq!(o.finalized, None);
    assert_eq!(o.submission, OracleSubmission { oracle: s("o2"), value: 20, timestamp: 5 });
}

#[test]
fn submission_errors() {
    let mut cfg = config(1);
    assert_eq!(
        submit_reserve(&cfg, &s("x"), false, false, &vec![], 0, 0, 0, 1),
        Err(ContractError::NotOracle { address: s("x") })
    );
    assert_eq!(
        submit_reserve(&cfg, &s("o1"), true, true, &vec![], 0, 0, 0, 1),
        Err(ContractError::AlreadySubmitted { address: s("o1") })
    );
    cfg.paused = true;
    assert_eq!(submit_reserve(&cfg, &s("o1"), true, false, &vec![], 0, 0, 0, 1), Err(ContractError::Paused));
}

#[test]
fn mint_check_cases() {
    let mut cfg = config(1);
    let fresh = Some(round(1_000, 100));
    let ok = mint_check(&cfg, &fresh, 200, 300, 600);
    assert!(ok.valid);
    assert_eq!(ok.headroom, 100);
    assert_eq!(ok.data_age_secs, 100);
    assert_eq!(ok.reason, None);
    let exact = mint_check(&cfg, &fresh, 200, 400, 600);
    assert!(exact.valid);
    assert_eq!(exact.headroom, 0);
    let over = mint_check(&cfg, &fresh, 200, 401, 600);
    assert!(!over.valid);
    assert_eq!(over.headroom, 400);
    assert_eq!(
        over.reason,
        Some(s("Mint would exceed reserves: 600 circulating + 401 requested > 1000 attested"))
    );
    let stale = mint_check(&cfg, &fresh, 100 + 86_401, 1, 1);
    assert!(!stale.valid);
    assert_eq!(stale.reason, Some(s("Reserve data is stale — 86401s old, threshold 86400s")));
    let none = mint_check(&cfg, &None, 0, 1, 1);
    assert_eq!(none.reason, Some(s("Reserve feed not initialized — no oracle submissions yet")));
    let future = mint_check(&cfg, &fresh, 50, 1, 1);
    assert_eq!(future.data_age_secs, 0);
    assert!(future.valid);
    cfg.paused = true;
    let paused = mint_check(&cfg, &fresh, 200, 1, 1);
    assert!(!paused.valid);
    assert_eq!(paused.reserve, 0);
    assert_eq!(paused.reason, Some(s("Aggregator is paused")));
}

#[test]
fn mint_check_overflowing_supply_against_maximal_reserve() {
    let cfg = config(1);
    let max = Some(round(u128::MAX, 0));
    let r = mint_check(&cfg, &max, 0, u128::MAX, 1);
    assert!(r.valid);
    assert_eq!(r.headroom, 0);
}

#[test]
fn admin_operations() {
    let cfg = config(1);
    assert_eq!(admin_override(&cfg, &s("eve"), 3, 0, 0, 5), Err(ContractError::Unauthorized));
    let r = admin_override(&cfg, &s("admin"), 3, 9, 8, 5).unwrap();
    assert_eq!(r.round.round_id, 4);
    assert_eq!(r.round.submission_count, 0);
    assert_eq!(r.round.reserve_amount, 5);
    assert_eq!(r.evicted_round, None);
    // the 101st round drops round 1 from the history
    let r = admin_override(&cfg, &s("admin"), 100, 9, 8, 5).unwrap();
    assert_eq!(r.round.round_id, 101);
    assert_eq!(r.evicted_round, Some(1));
    assert_eq!(
        add_oracle(&cfg, &s("admin"), &s("o1"), Ok(s("o1")), true),
        Err(ContractError::OracleAlreadyExists { address: s("o1") })
    );
    assert_eq!(
        update_config(cfg.clone(), &s("admin"), Some(60), None, Some(Err(s("bad")))),
        Err(ContractError::Std(StdError::GenericErr { msg: s("bad") }))
    );
    let c = update_config(cfg, &s("admin"), Some(60), Some(2), Some(Ok(s("f")))).unwrap();
    assert_eq!((c.staleness_threshold_secs, c.min_submissions, c.factory), (60, 2, Some(s("f"))));
}

#[test]
fn listings() {
    let l = list_oracles(&vec![(s("o1"), s("bank"))]);
    assert_eq!(l.oracles, vec![OracleInfo { address: s("o1"), label: s("bank") }]);
    let rounds: Vec<RoundData> = (0..30).map(|i| round(i, 0)).collect();
    assert_eq!(round_history(rounds.clone(), None).len(), 20);
    assert_eq!(round_history(rounds.clone(), Some(3)), rounds[..3].to_vec());
    assert_eq!(round_history(rounds, Some(100)).len(), 30);
}

use amitis_contracts::clssc::contract::{
    add_minter, burn, check_burn_from, check_movement, check_pause, complete_mint, instantiate,
    freeze_account, list_minters, plan_mint, query_is_minter, record_burn, remove_from_whitelist,
    remove_minter, unfreeze_account,
    set_paused, MinterRecord, ReserveQuery, ReserveVerdict,
};
use amitis_contracts::clssc::error::ContractError;
use amitis_contracts::clssc::msg::{ExecuteMsg, InstantiateMsg};
use amitis_contracts::clssc::state::{AccountFlags, Config, MinterEntry};
use amitis_contracts::common::StdError;

fn s(x: &str) -> String {
    x.to_string()
}

fn init_msg() -> InstantiateMsg {
    InstantiateMsg {
        name: s("Meridian Closed-Loop Stablecoin"),
        symbol: s("CLSSC"),
        decimals: 6,
        admin: s("admin"),
        initial_minters: vec![(s("payroll"), s("meridian-payroll-processor"))],
        mint_caps: vec![(s("payroll"), 1_000)],
        reserve_uri: s("https://por.example/feed"),
        whitelist_enabled: false,
        initial_whitelist: vec![s("alice")],
        initial_balances: vec![],
        aggregator_addr: Some(s("aggregator")),
        por_enforced: None,
    }
}

fn config() -> Config {
    let msg = init_msg();
    instantiate(&msg, Ok(s("admin")), Ok(()), vec![Ok(s("payroll"))], vec![Ok(s("payroll"))], vec![Ok(s("alice"))], Some(Ok(s("aggregator"))))
        .unwrap()
        .config
}

fn clean() -> AccountFlags {
    AccountFlags { frozen: None, whitelisted: None }
}

#[test]
fn instantiate_registers_lists_and_aggregator() {
    let msg = init_msg();
    let o = instantiate(&msg, Ok(s("admin")), Ok(()), vec![Ok(s("payroll"))], vec![Ok(s("payroll"))], vec![Ok(s("alice"))], Some(Ok(s("aggregator"))))
        .unwrap();
    assert_eq!(o.config.aggregator_addr, Some(s("aggregator")));
    assert!(!o.config.por_enforced);
    assert_eq!(o.minters, vec![(s("payroll"), s("meridian-payroll-processor"))]);
    assert_eq!(o.mint_caps, vec![(s("payroll"), 1_000)]);
    assert_eq!(o.whitelist, vec![s("alice")]);
}

#[test]
fn instantiate_error_order() {
    let msg = init_msg();
    assert_eq!(
        instantiate(&msg, Err(s("bad admin")), Err(s("bad token")), vec![Err(s("m"))], vec![], vec![], Some(Err(s("bad agg")))),
        Err(ContractError::InvalidAddress { msg: s("bad admin") })
    );
    assert_eq!(
        instantiate(&msg, Ok(s("admin")), Err(s("bad token")), vec![Err(s("m"))], vec![Ok(s("x"))], vec![Ok(s("y"))], Some(Ok(s("a")))),
        Err(ContractError::Std(StdError::GenericErr { msg: s("bad token") }))
    );
    assert_eq!(
        instantiate(&msg, Ok(s("admin")), Ok(()), vec![Ok(s("payroll"))], vec![Ok(s("x"))], vec![Err(s("bad wl"))], Some(Err(s("bad agg")))),
        Err(ContractError::InvalidAddress { msg: s("bad wl") })
    );
    assert_eq!(
        instantiate(&msg, Ok(s("admin")), Ok(()), vec![Ok(s("payroll"))], vec![Ok(s("x"))], vec![Ok(s("y"))], Some(Err(s("bad agg")))),
        Err(ContractError::InvalidAddress { msg: s("bad agg") })
    );
    let mut no_agg = init_msg();
    no_agg.aggregator_addr = None;
    let o = instantiate(&no_agg, Ok(s("admin")), Ok(()), vec![Ok(s("payroll"))], vec![Ok(s("x"))], vec![Ok(s("y"))], None).unwrap();
    assert_eq!(o.config.aggregator_addr, None);
}

#[test]
fn pause_blocks_all_but_admin_management() {
    let mut cfg = config();
    cfg.paused = true;
    let transfer = ExecuteMsg::Transfer { recipient: s("bob"), amount: 1 };
    assert_eq!(check_pause(&cfg, &transfer), Err(ContractError::Paused));
    assert_eq!(check_pause(&cfg, &ExecuteMsg::SetPorEnforced { enforced: true }), Err(ContractError::Paused));
    assert_eq!(check_pause(&cfg, &ExecuteMsg::Unpause), Ok(()));
    assert_eq!(check_pause(&cfg, &ExecuteMsg::FreezeAccount { address: s("x"), reason: s("r") }), Ok(()));
    cfg.paused = false;
    assert_eq!(check_pause(&cfg, &transfer), Ok(()));
}

#[test]
fn frozen_and_whitelist_rules_for_movements() {
    let mut cfg = config();
    let frozen = AccountFlags { frozen: Some(s("court order")), whitelisted: Some(true) };
    assert_eq!(
        check_movement(&cfg, 0, &Ok(s("a")), &Ok(s("b")), &clean(), &clean()),
        Err(ContractError::ZeroAmount)
    );
    assert_eq!(
        check_movement(&cfg, 5, &Ok(s("a")), &Err(s("invalid")), &clean(), &clean()),
        Err(ContractError::Std(StdError::GenericErr { msg: s("invalid") }))
    );
    assert_eq!(
        check_movement(&cfg, 5, &Ok(s("a")), &Ok(s("b")), &frozen, &frozen),
        Err(ContractError::AccountFrozen { address: s("a"), reason: s("court order") })
    );
    assert_eq!(
        check_movement(&cfg, 5, &Ok(s("a")), &Ok(s("b")), &clean(), &frozen),
        Err(ContractError::AccountFrozen { address: s("b"), reason: s("court order") })
    );
    assert_eq!(check_movement(&cfg, 5, &Ok(s("a")), &Ok(s("b")), &clean(), &clean()), Ok(()));
    cfg.whitelist_enabled = true;
    let listed = AccountFlags { frozen: None, whitelisted: Some(true) };
    assert_eq!(
        check_movement(&cfg, 5, &Ok(s("a")), &Ok(s("b")), &clean(), &listed),
        Err(ContractError::NotWhitelisted { address: s("a") })
    );
    assert_eq!(
        check_movement(&cfg, 5, &Ok(s("a")), &Ok(s("b")), &listed, &clean()),
        Err(ContractError::NotWhitelisted { address: s("b") })
    );
    assert_eq!(check_movement(&cfg, 5, &Ok(s("a")), &Ok(s("b")), &listed, &listed), Ok(()));
}

#[test]
fn mint_requires_minter_and_reserve() {
    let mut cfg = config();
    assert_eq!(plan_mint(&cfg, 0, Some(s("l")), Ok(s("bob")), &clean(), 0), Err(ContractError::ZeroAmount));
    assert_eq!(plan_mint(&cfg, 5, None, Ok(s("bob")), &clean(), 0), Err(ContractError::NotMinter));
    let plan = plan_mint(&cfg, 5, Some(s("l")), Ok(s("bob")), &clean(), 100).unwrap();
    assert_eq!(plan.reserve_query, None);
    cfg.por_enforced = true;
    cfg.aggregator_addr = None;
    assert_eq!(
        plan_mint(&cfg, 5, Some(s("l")), Ok(s("bob")), &clean(), 100),
        Err(ContractError::Std(StdError::GenericErr {
            msg: s("PoR enforcement enabled but no aggregator configured")
        }))
    );
    cfg.aggregator_addr = Some(s("agg"));
    let plan = plan_mint(&cfg, 5, Some(s("l")), Ok(s("bob")), &clean(), 100).unwrap();
    assert_eq!(
        plan.reserve_query,
        Some(ReserveQuery { aggregator: s("agg"), mint_amount: 5, circulating_supply: 100 })
    );
    let refused = ReserveVerdict { valid: false, reason: None };
    assert_eq!(
        complete_mint(cfg.clone(), &s("payroll"), 5, Some(refused), None, None, 0, 100),
        Err(ContractError::Std(StdError::GenericErr { msg: s("PoR check failed: reserve insufficient or stale") }))
    );
    let refused = ReserveVerdict { valid: false, reason: Some(s("stale")) };
    assert_eq!(
        complete_mint(cfg.clone(), &s("payroll"), 5, Some(refused), None, None, 0, 100),
        Err(ContractError::Std(StdError::GenericErr { msg: s("PoR check failed: stale") }))
    );
}

#[test]
fn mint_updates_supply_and_respects_cap() {
    let cfg = config();
    let o = complete_mint(cfg.clone(), &s("payroll"), 400, None, Some(1_000), Some(500), 7, 100).unwrap();
    assert_eq!(o.balance, 407);
    assert_eq!(o.total_supply, 500);
    assert_eq!(o.config.total_minted, 400);
    assert_eq!(o.lifetime_minted, Some(900));
    assert_eq!(
        complete_mint(cfg.clone(), &s("payroll"), 501, None, Some(1_000), Some(500), 7, 100),
        Err(ContractError::MintCapExceeded {
            minter: s("payroll"),
            cap: s("1000"),
            minted: s("500"),
            requested: s("501"),
        })
    );
    let uncapped = complete_mint(cfg, &s("other"), 3, None, None, Some(99), 0, 0).unwrap();
    assert_eq!(uncapped.lifetime_minted, None);
}

#[test]
fn mint_refuses_frozen_or_unlisted_recipient() {
    let mut cfg = config();
    let frozen = AccountFlags { frozen: Some(s("fraud")), whitelisted: None };
    assert_eq!(
        plan_mint(&cfg, 5, Some(s("l")), Ok(s("bob")), &frozen, 0),
        Err(ContractError::AccountFrozen { address: s("bob"), reason: s("fraud") })
    );
    cfg.whitelist_enabled = true;
    assert_eq!(
        plan_mint(&cfg, 5, Some(s("l")), Ok(s("bob")), &clean(), 0),
        Err(ContractError::NotWhitelisted { address: s("bob") })
    );
}

#[test]
fn burn_rules() {
    let cfg = config();
    assert_eq!(burn(cfg.clone(), &s("bob"), 0, None, 10, 10), Err(ContractError::ZeroAmount));
    assert_eq!(
        burn(cfg.clone(), &s("bob"), 5, Some(s("r")), 10, 10),
        Err(ContractError::AccountFrozen { address: s("bob"), reason: s("r") })
    );
    assert_eq!(
        burn(cfg.clone(), &s("bob"), 11, None, 10, 100),
        Err(ContractError::Std(StdError::SubOverflow { minuend: 10, subtrahend: 11 }))
    );
    let o = burn(cfg.clone(), &s("bob"), 4, None, 10, 100).unwrap();
    assert_eq!((o.balance, o.total_supply, o.config.total_burned), (6, 96, 4));
    assert_eq!(check_burn_from(3, &s("own"), Ok(s("own")), Some(s("x"))), Err(ContractError::AccountFrozen { address: s("own"), reason: s("x") }));
    assert_eq!(check_burn_from(3, &s("own"), Ok(s("own")), None), Ok(s("own")));
    assert_eq!(record_burn(cfg, 3).total_burned, 3);
}

#[test]
fn supply_accounting_holds_across_mint_and_burn() {
    let cfg = config();
    let minted = complete_mint(cfg, &s("m"), 50, None, None, None, 0, 20).unwrap();
    let burned = burn(minted.config, &s("m"), 30, None, 50, minted.total_supply).unwrap();
    // initial supply 20: supply + burned == minted + initial
    assert_eq!(burned.total_supply + burned.config.total_burned, burned.config.total_minted + 20);
}

#[test]
fn admin_management() {
    let cfg = config();
    let empty = MinterEntry { label: None, cap: None };
    assert_eq!(add_minter(&cfg, &s("eve"), &s("x"), Ok(s("x")), empty.clone(), s("l"), None), Err(ContractError::Unauthorized));
    let minter = MinterEntry { label: Some(s("l")), cap: None };
    assert_eq!(
        add_minter(&cfg, &s("admin"), &s("x"), Ok(s("x")), minter, s("l"), None),
        Err(ContractError::AlreadyMinter { address: s("x") })
    );
    assert_eq!(
        remove_minter(&cfg, &s("admin"), &s("x"), Ok(s("x")), empty.clone()),
        Err(ContractError::NotAMinter { address: s("x") })
    );
    // adding then removing a minter leaves the address as it was
    let (addr, added) = add_minter(&cfg, &s("admin"), &s("x"), Ok(s("x1")), empty.clone(), s("payroll"), Some(500)).unwrap();
    assert_eq!(addr, s("x1"));
    assert_eq!(added, MinterEntry { label: Some(s("payroll")), cap: Some(500) });
    let (_, removed) = remove_minter(&cfg, &s("admin"), &s("x"), Ok(s("x1")), added).unwrap();
    assert_eq!(removed, empty);
    // without a cap, a stored cap stays
    let capped = MinterEntry { label: None, cap: Some(7) };
    let (_, added) = add_minter(&cfg, &s("admin"), &s("x"), Ok(s("x1")), capped, s("m"), None).unwrap();
    assert_eq!(added.cap, Some(7));
    // freezing replaces the reason and keeps the whitelist entry; unfreezing lifts it
    let listed = AccountFlags { frozen: Some(s("old")), whitelisted: Some(true) };
    let (_, frozen) = freeze_account(&cfg, &s("admin"), Ok(s("bob")), listed, s("fraud")).unwrap();
    assert_eq!(frozen, AccountFlags { frozen: Some(s("fraud")), whitelisted: Some(true) });
    let sender_ok = Ok(s("bob"));
    let to_ok = Ok(s("carol"));
    assert_eq!(
        check_movement(&cfg, 1, &sender_ok, &to_ok, &frozen, &clean()),
        Err(ContractError::AccountFrozen { address: s("bob"), reason: s("fraud") })
    );
    let (_, thawed) = unfreeze_account(&cfg, &s("admin"), Ok(s("bob")), frozen).unwrap();
    assert_eq!(thawed, AccountFlags { frozen: None, whitelisted: Some(true) });
    assert_eq!(check_movement(&cfg, 1, &sender_ok, &to_ok, &thawed, &clean()), Ok(()));
    assert_eq!(unfreeze_account(&cfg, &s("eve"), Ok(s("bob")), thawed), Err(ContractError::Unauthorized));
    assert_eq!(
        remove_from_whitelist(&cfg, &s("admin"), &s("x"), Err(s("bad")), false),
        Err(ContractError::InvalidAddress { msg: s("bad") })
    );
    let paused = set_paused(cfg.clone(), &s("admin"), true).unwrap();
    assert!(paused.paused);
    assert_eq!(set_paused(cfg, &s("eve"), true), Err(ContractError::Unauthorized));
}

#[test]
fn minter_listing_pages_after_start() {
    let rec = |a: &str, cap: Option<u128>, life: Option<u128>| MinterRecord {
        address: s(a),
        label: format!("label-{}", a),
        cap,
        lifetime: life,
    };
    let records = vec![rec("a1", None, None), rec("b2", Some(9), Some(4)), rec("c3", None, Some(1)), rec("d4", None, None)];
    let page = list_minters(&records, Some(Ok(s("a1"))), Some(2)).unwrap();
    let addrs: Vec<String> = page.minters.iter().map(|m| m.address.clone()).collect();
    assert_eq!(addrs, vec![s("b2"), s("c3")]);
    assert_eq!(page.minters[0].cap, Some(9));
    assert_eq!(page.minters[0].lifetime_minted, 4);
    let all = list_minters(&records, None, None).unwrap();
    assert_eq!(all.minters.len(), 4);
    assert_eq!(all.minters[0].lifetime_minted, 0);
    let none = list_minters(&records, Some(Ok(s("zz"))), None).unwrap();
    assert!(none.minters.is_empty());
    assert_eq!(list_minters(&records, Some(Err(s("bad"))), None), Err(StdError::GenericErr { msg: s("bad") }));
    let info = query_is_minter(Some(s("l")), None, None);
    assert!(info.is_minter);
    assert_eq!(info.lifetime_minted, 0);
}

#[test]
fn pause_halts_every_token_movement() {
    let mut cfg = config();
    cfg.paused = true;
    let requests = vec![
        ExecuteMsg::Transfer { recipient: s("bob"), amount: 1 },
        ExecuteMsg::TransferFrom { owner: s("a"), recipient: s("b"), amount: 1 },
        ExecuteMsg::IncreaseAllowance { spender: s("b"), amount: 1, expires: None },
        ExecuteMsg::DecreaseAllowance { spender: s("b"), amount: 1, expires: None },
        ExecuteMsg::Send { contract: s("c"), amount: 1, msg: vec![] },
        ExecuteMsg::SendFrom { owner: s("a"), contract: s("c"), amount: 1, msg: vec![] },
        ExecuteMsg::Mint { recipient: s("bob"), amount: 1, memo: None },
        ExecuteMsg::Burn { amount: 1, memo: None },
        ExecuteMsg::BurnFrom { owner: s("a"), amount: 1, memo: None },
    ];
    for r in &requests {
        assert_eq!(check_pause(&cfg, r), Err(ContractError::Paused));
    }
}

use super::error::ContractError;
use super::msg::{FeeInfoResponse, InstantiateMsg, RegistryStatsResponse};
use super::state::{ApprovedAsset, Config, DeploymentRecord, IssuerRecord, IssuerStatus, ReserveType};
use crate::clssc::msg::{ExecuteMsg as ClsscExecuteMsg, InstantiateMsg as ClsscInstantiateMsg};
use crate::common::{
    decimal, lowercase, prefix, seq_lt, str_lt, to_lowercase, u128_to_string, AddrCheck, StdError,
};
use crate::math::multiply_ratio;
use vstd::prelude::*;

verus! {

/// Largest fee in basis points accepted at instantiation (100%).
pub const MAX_BPS: u64 = 10_000;

/// Page size of the listings when none is given.
pub const DEFAULT_LIST_LIMIT: u32 = 30;

/// The reserve assets approved at instantiation: (id, name).
pub open spec fn default_assets() -> Seq<(Seq<char>, Seq<char>)> {
    seq![
        ("USD_FIAT"@, "US Dollar Fiat"@),
        ("T_BILLS"@, "US Treasury Bills"@),
        ("USDC"@, "USD Coin (USDC)"@),
        ("USDT"@, "Tether (USDT)"@),
        ("EUR_FIAT"@, "Euro Fiat"@),
        ("GBP_FIAT"@, "British Pound Fiat"@),
    ]
}

/// What instantiation writes.
#[derive(Clone, Debug, PartialEq, Eq)]
pub struct InstantiateOutcome {
    pub config: Config,
    pub next_deployment_id: u64,
    pub approved_assets: Vec<ApprovedAsset>,
}

fn asset(id: &str, name: &str) -> (r: ApprovedAsset)
    ensures
        r.id@ == id@,
        r.name@ == name@,
        r.approved,
{
    ApprovedAsset { id: String::from_str(id), name: String::from_str(name), approved: true }
}

/// Builds the configuration of a new factory: fees above 100% are refused, and six
/// reserve assets start approved.
pub fn instantiate(msg: &InstantiateMsg, admin: AddrCheck, fee_collector: AddrCheck) -> (r: Result<
    InstantiateOutcome,
    ContractError,
>)
    ensures
        msg.mint_fee_bps > MAX_BPS ==> r == Err::<InstantiateOutcome, _>(
            ContractError::InvalidBps { bps: msg.mint_fee_bps },
        ),
        msg.mint_fee_bps <= MAX_BPS && msg.burn_fee_bps > MAX_BPS ==> r == Err::<
            InstantiateOutcome,
            _,
        >(ContractError::InvalidBps { bps: msg.burn_fee_bps }),
        msg.mint_fee_bps <= MAX_BPS && msg.burn_fee_bps <= MAX_BPS && admin is Err ==> r
            == Err::<InstantiateOutcome, _>(ContractError::InvalidAddress { msg: admin->Err_0 }),
        msg.mint_fee_bps <= MAX_BPS && msg.burn_fee_bps <= MAX_BPS && admin is Ok
            && fee_collector is Err ==> r == Err::<InstantiateOutcome, _>(
            ContractError::InvalidAddress { msg: fee_collector->Err_0 },
        ),
        msg.mint_fee_bps <= MAX_BPS && msg.burn_fee_bps <= MAX_BPS && admin is Ok
            && fee_collector is Ok ==> (r matches Ok(o) && {
            &&& o.config == (Config {
                admin: admin->Ok_0,
                clssc_code_id: msg.clssc_code_id,
                mint_fee_bps: msg.mint_fee_bps,
                burn_fee_bps: msg.burn_fee_bps,
                fee_collector: fee_collector->Ok_0,
                total_fees_collected: 0,
                total_deployments: 0,
                accepting_registrations: true,
            })
            &&& o.next_deployment_id == 1
            &&& o.approved_assets.len() == default_assets().len()
            &&& forall|i: int|
                0 <= i < default_assets().len() ==> #[trigger] o.approved_assets[i].id@
                    == default_assets()[i].0 && o.approved_assets[i].name@ == default_assets()[i].1
                    && o.approved_assets[i].approved
        }),
{
    if msg.mint_fee_bps > MAX_BPS {
        return Err(ContractError::InvalidBps { bps: msg.mint_fee_bps });
    }
    if msg.burn_fee_bps > MAX_BPS {
        return Err(ContractError::InvalidBps { bps: msg.burn_fee_bps });
    }
    let admin_addr = match admin {
        Ok(a) => a,
        Err(e) => {
            return Err(ContractError::InvalidAddress { msg: e });
        },
    };
    let collector = match fee_collector {
        Ok(a) => a,
        Err(e) => {
            return Err(ContractError::InvalidAddress { msg: e });
        },
    };
    let config = Config {
        admin: admin_addr,
        clssc_code_id: msg.clssc_code_id,
        mint_fee_bps: msg.mint_fee_bps,
        burn_fee_bps: msg.burn_fee_bps,
        fee_collector: collector,
        total_fees_collected: 0,
        total_deployments: 0,
        accepting_registrations: true,
    };
    let mut assets: Vec<ApprovedAsset> = Vec::new();
    assets.push(asset("USD_FIAT", "US Dollar Fiat"));
    assets.push(asset("T_BILLS", "US Treasury Bills"));
    assets.push(asset("USDC", "USD Coin (USDC)"));
    assets.push(asset("USDT", "Tether (USDT)"));
    assets.push(asset("EUR_FIAT", "Euro Fiat"));
    assets.push(asset("GBP_FIAT", "British Pound Fiat"));
    assert forall|i: int| 0 <= i < default_assets().len() implies #[trigger] assets@[i].id@
        == default_assets()[i].0 && assets@[i].name@ == default_assets()[i].1
        && assets@[i].approved by {
        if i == 0 {
        } else if i == 1 {
        } else if i == 2 {
        } else if i == 3 {
        } else if i == 4 {
        } else {
        }
    }
    Ok(InstantiateOutcome { config, next_deployment_id: 1, approved_assets: assets })
}

/// Registers the sender as a pending issuer; `existing` tells whether the sender is
/// already registered and `height` is the block height.
pub fn register_issuer(
    config: &Config,
    sender: &String,
    existing: bool,
    legal_name: String,
    jurisdiction: String,
    kyc_ref: String,
    reserve_type: ReserveType,
    reserve_uri: String,
    height: u64,
) -> (r: Result<IssuerRecord, ContractError>)
    ensures
        !config.accepting_registrations ==> r == Err::<IssuerRecord, _>(
            ContractError::RegistrationsClosed,
        ),
        config.accepting_registrations && existing ==> (r matches Err(
            ContractError::IssuerAlreadyRegistered { address },
        ) && address@ == sender@),
        config.accepting_registrations && !existing ==> r == Ok::<IssuerRecord, ContractError>(
            IssuerRecord {
                address: *sender,
                legal_name,
                jurisdiction,
                kyc_ref,
                status: IssuerStatus::Pending,
                reserve_type,
                reserve_uri,
                registered_at: height,
                approved_at: None,
                deployments: 0,
                lifetime_minted: 0,
                lifetime_burned: 0,
                lifetime_fees: 0,
            },
        ),
{
    if !config.accepting_registrations {
        return Err(ContractError::RegistrationsClosed);
    }
    if existing {
        return Err(ContractError::IssuerAlreadyRegistered { address: sender.clone() });
    }
    Ok(
        IssuerRecord {
            address: sender.clone(),
            legal_name,
            jurisdiction,
            kyc_ref,
            status: IssuerStatus::Pending,
            reserve_type,
            reserve_uri,
            registered_at: height,
            approved_at: None,
            deployments: 0,
            lifetime_minted: 0,
            lifetime_burned: 0,
            lifetime_fees: 0,
        },
    )
}

fn is_admin(config: &Config, sender: &String) -> (r: bool)
    ensures
        r == (sender@ == config.admin@),
{
    *sender == config.admin
}

/// The administrative decisions on an issuer.
#[derive(Clone, Copy, Debug, PartialEq, Eq, Structural)]
pub enum IssuerDecision {
    Approve,
    Suspend,
    Revoke,
    Reinstate,
}

/// The issuer record after an administrative decision at block `height`: approval
/// records the height, reinstatement approves again without recording it. A revoked
/// issuer is barred for good: no decision changes its record.
pub open spec fn decided(issuer: IssuerRecord, decision: IssuerDecision, height: u64) -> IssuerRecord {
    if issuer.status == IssuerStatus::Revoked {
        issuer
    } else {
        match decision {
            IssuerDecision::Approve => IssuerRecord {
                status: IssuerStatus::Approved,
                approved_at: Some(height),
                ..issuer
            },
            IssuerDecision::Suspend => IssuerRecord { status: IssuerStatus::Suspended, ..issuer },
            IssuerDecision::Revoke => IssuerRecord { status: IssuerStatus::Revoked, ..issuer },
            IssuerDecision::Reinstate => IssuerRecord { status: IssuerStatus::Approved, ..issuer },
        }
    }
}

/// Whether a decision freezes the issuer's contracts: suspending an issuer that is not
/// revoked.
pub open spec fn freezes_contracts(issuer: IssuerRecord, decision: IssuerDecision) -> bool {
    decision == IssuerDecision::Suspend && issuer.status != IssuerStatus::Revoked
}

/// Whether a deployment's stablecoin is live.
pub open spec fn is_live() -> spec_fn(DeploymentRecord) -> bool {
    |d: DeploymentRecord| d.active
}

/// A deployment marked inactive.
pub open spec fn deactivated(d: DeploymentRecord) -> DeploymentRecord {
    DeploymentRecord { active: false, ..d }
}

/// The request that pauses a deployment's stablecoin.
pub open spec fn pause_call(d: DeploymentRecord) -> ContractCall {
    ContractCall { contract_addr: d.contract_addr, msg: ClsscExecuteMsg::Pause }
}

/// What an administrative decision writes and sends.
#[derive(Clone, Debug, PartialEq, Eq)]
pub struct DecisionOutcome {
    /// The issuer's new record.
    pub issuer: IssuerRecord,
    /// The issuer's deployments that the decision marks inactive.
    pub frozen: Vec<DeploymentRecord>,
    /// The pause requests sent to their stablecoins.
    pub calls: Vec<ContractCall>,
}

/// Approves, suspends, revokes or reinstates an issuer (admin only): `address` is the
/// given address, `validated_address` its validation, `issuer` the stored record of the
/// validated address and `deployments` that issuer's deployments. Suspension freezes the
/// issuer's existing contracts: each live deployment is marked inactive and its
/// stablecoin is told to pause.
pub fn decide_issuer(
    config: &Config,
    sender: &String,
    address: &String,
    validated_address: AddrCheck,
    issuer: Option<IssuerRecord>,
    deployments: &Vec<DeploymentRecord>,
    decision: IssuerDecision,
    height: u64,
) -> (r: Result<DecisionOutcome, ContractError>)
    ensures
        sender@ != config.admin@ ==> r == Err::<DecisionOutcome, _>(ContractError::Unauthorized),
        sender@ == config.admin@ && validated_address is Err ==> r == Err::<DecisionOutcome, _>(
            ContractError::InvalidAddress { msg: validated_address->Err_0 },
        ),
        sender@ == config.admin@ && validated_address is Ok && issuer is None ==> (r matches Err(
            ContractError::IssuerNotFound { address: a },
        ) && a@ == address@),
        sender@ == config.admin@ && validated_address is Ok && issuer is Some ==> (r matches Ok(o)
            && {
            &&& o.issuer == decided(issuer->0, decision, height)
            &&& freezes_contracts(issuer->0, decision) ==> {
                &&& o.frozen@ == deployments@.filter(is_live()).map_values(
                    |d: DeploymentRecord| deactivated(d),
                )
                &&& o.calls@ == deployments@.filter(is_live()).map_values(
                    |d: DeploymentRecord| pause_call(d),
                )
            }
            &&& !freezes_contracts(issuer->0, decision) ==> o.frozen@.len() == 0
                && o.calls@.len() == 0
        }),
{
    if !is_admin(config, sender) {
        return Err(ContractError::Unauthorized);
    }
    if let Err(e) = validated_address {
        return Err(ContractError::InvalidAddress { msg: e });
    }
    let mut rec = match issuer {
        Some(i) => i,
        None => {
            return Err(ContractError::IssuerNotFound { address: address.clone() });
        },
    };
    let mut frozen: Vec<DeploymentRecord> = Vec::new();
    let mut calls: Vec<ContractCall> = Vec::new();
    if rec.status == IssuerStatus::Revoked {
        return Ok(DecisionOutcome { issuer: rec, frozen, calls });
    }
    match decision {
        IssuerDecision::Approve => {
            rec.status = IssuerStatus::Approved;
            rec.approved_at = Some(height);
        },
        IssuerDecision::Suspend => {
            rec.status = IssuerStatus::Suspended;
            let ghost p = is_live();
            let n = deployments.len();
            let mut i: usize = 0;
            while i < n
                invariant
                    n == deployments.len(),
                    i <= n,
                    p == is_live(),
                    frozen@ == deployments@.take(i as int).filter(p).map_values(
                        |d: DeploymentRecord| deactivated(d),
                    ),
                    calls@ == deployments@.take(i as int).filter(p).map_values(
                        |d: DeploymentRecord| pause_call(d),
                    ),
                decreases n - i,
            {
                let d = &deployments[i];
                proof {
                    deployments@.take(i as int).lemma_filter_push(*d, p);
                    assert(deployments@.take(i + 1) =~= deployments@.take(i as int).push(*d));
                }
                let ghost f = deployments@.take(i as int).filter(p);
                if d.active {
                    let mut off = copy_deployment(d);
                    off.active = false;
                    frozen.push(off);
                    calls.push(
                        ContractCall { contract_addr: d.contract_addr.clone(), msg: ClsscExecuteMsg::Pause },
                    );
                    assert(frozen@ =~= f.push(*d).map_values(|x: DeploymentRecord| deactivated(x)));
                    assert(calls@ =~= f.push(*d).map_values(|x: DeploymentRecord| pause_call(x)));
                }
                i = i + 1;
            }
            assert(deployments@.take(n as int) =~= deployments@);
        },
        IssuerDecision::Revoke => {
            rec.status = IssuerStatus::Revoked;
        },
        IssuerDecision::Reinstate => {
            rec.status = IssuerStatus::Approved;
        },
    }
    Ok(DecisionOutcome { issuer: rec, frozen, calls })
}

/// The name of a status as `Debug` prints it.
pub open spec fn status_name(s: IssuerStatus) -> Seq<char> {
    match s {
        IssuerStatus::Pending => "Pending"@,
        IssuerStatus::Approved => "Approved"@,
        IssuerStatus::Suspended => "Suspended"@,
        IssuerStatus::Revoked => "Revoked"@,
    }
}

fn status_string(s: IssuerStatus) -> (r: String)
    ensures
        r@ == status_name(s),
{
    match s {
        IssuerStatus::Pending => String::from_str("Pending"),
        IssuerStatus::Approved => String::from_str("Approved"),
        IssuerStatus::Suspended => String::from_str("Suspended"),
        IssuerStatus::Revoked => String::from_str("Revoked"),
    }
}

/// A stablecoin instantiation the factory asks the chain for.
#[derive(Clone, Debug, PartialEq, Eq)]
pub struct ClsscInstantiation {
    pub code_id: u64,
    /// Contract admin (the factory).
    pub admin: String,
    pub label: String,
    pub msg: ClsscInstantiateMsg,
}

/// What a deployment request writes and sends.
#[derive(Clone, Debug, PartialEq, Eq)]
pub struct DeployOutcome {
    /// The stablecoin to instantiate; its address is recorded when the chain replies.
    pub instantiation: ClsscInstantiation,
    /// The pending deployment record.
    pub deployment: DeploymentRecord,
    pub next_deployment_id: u64,
    /// The issuer with one more deployment.
    pub issuer: IssuerRecord,
    /// The configuration with one more deployment.
    pub config: Config,
}

/// The label of the stablecoin contract of deployment `id`.
pub open spec fn deployment_label(symbol: Seq<char>, id: u64) -> Seq<char> {
    "meridian-"@ + lowercase(symbol) + "-"@ + decimal(id as nat)
}

/// Deploys a stablecoin for the sender, who must be an approved issuer with a reserve URI:
/// `issuer` is the sender's stored record, `next_id` the next deployment id, `factory`
/// the factory's own address and `height` the block height.
pub fn deploy_stablecoin(
    config: Config,
    sender: &String,
    issuer: Option<IssuerRecord>,
    next_id: u64,
    factory: &String,
    height: u64,
    name: String,
    symbol: String,
    decimals: u8,
    peg_currency: String,
    reserve_type: ReserveType,
    reserve_uri: String,
    whitelist_enabled: bool,
    initial_whitelist: Vec<String>,
) -> (r: Result<DeployOutcome, ContractError>)
    requires
        issuer is Some && issuer->0.status == IssuerStatus::Approved && reserve_uri@.len() > 0
            ==> next_id < u64::MAX && issuer->0.deployments < u64::MAX && config.total_deployments
            < u64::MAX,
    ensures
        issuer is None ==> (r matches Err(ContractError::IssuerNotFound { address }) && address@
            == sender@),
        issuer is Some && issuer->0.status != IssuerStatus::Approved ==> (r matches Err(
            ContractError::IssuerNotApproved { address, status },
        ) && address@ == sender@ && status@ == status_name(issuer->0.status)),
        issuer is Some && issuer->0.status == IssuerStatus::Approved && reserve_uri@.len() == 0
            ==> r == Err::<DeployOutcome, _>(ContractError::MissingReserveUri),
        issuer is Some && issuer->0.status == IssuerStatus::Approved && reserve_uri@.len() > 0
            ==> (r matches Ok(o) && {
            &&& o.instantiation.code_id == config.clssc_code_id
            &&& o.instantiation.admin == *factory
            &&& o.instantiation.label@ == deployment_label(symbol@, next_id)
            &&& o.instantiation.msg.name == name
            &&& o.instantiation.msg.symbol == symbol
            &&& o.instantiation.msg.decimals == decimals
            &&& o.instantiation.msg.admin == *factory
            &&& o.instantiation.msg.initial_minters.len() == 1
            &&& o.instantiation.msg.initial_minters[0].0 == *sender
            &&& o.instantiation.msg.initial_minters[0].1@ == "issuer-"@ + sender@
            &&& o.instantiation.msg.mint_caps.len() == 0
            &&& o.instantiation.msg.reserve_uri == reserve_uri
            &&& o.instantiation.msg.whitelist_enabled == whitelist_enabled
            &&& o.instantiation.msg.initial_whitelist == initial_whitelist
            &&& o.instantiation.msg.initial_balances.len() == 0
            &&& o.instantiation.msg.aggregator_addr is None
            &&& o.instantiation.msg.por_enforced is None
            &&& o.deployment == (DeploymentRecord {
                id: next_id,
                issuer: *sender,
                contract_addr: *factory,
                name,
                symbol,
                decimals,
                peg_currency,
                reserve_type,
                reserve_uri,
                deployed_at: height,
                active: false,
                circulating_supply: 0,
                lifetime_minted: 0,
                lifetime_burned: 0,
                lifetime_fees: 0,
            })
            &&& o.next_deployment_id == next_id + 1
            &&& o.issuer == (IssuerRecord {
                deployments: (issuer->0.deployments + 1) as u64,
                ..issuer->0
            })
            &&& o.config == (Config {
                total_deployments: (config.total_deployments + 1) as u64,
                ..config
            })
        }),
{
    let mut rec = match issuer {
        Some(i) => i,
        None => {
            return Err(ContractError::IssuerNotFound { address: sender.clone() });
        },
    };
    if rec.status != IssuerStatus::Approved {
        return Err(
            ContractError::IssuerNotApproved {
                address: sender.clone(),
                status: status_string(rec.status),
            },
        );
    }
    if reserve_uri.as_str().is_empty() {
        return Err(ContractError::MissingReserveUri);
    }
    let mut minter_label = String::from_str("issuer-");
    minter_label.append(sender.as_str());
    let mut minters: Vec<(String, String)> = Vec::new();
    minters.push((sender.clone(), minter_label));
    let init = ClsscInstantiateMsg {
        name: name.clone(),
        symbol: symbol.clone(),
        decimals,
        admin: factory.clone(),
        initial_minters: minters,
        mint_caps: Vec::new(),
        reserve_uri: reserve_uri.clone(),
        whitelist_enabled,
        initial_whitelist,
        initial_balances: Vec::new(),
        aggregator_addr: None,
        por_enforced: None,
    };
    let mut label = String::from_str("meridian-");
    let lower = to_lowercase(&symbol);
    label.append(lower.as_str());
    label.append("-");
    label.append(u128_to_string(next_id as u128).as_str());
    let instantiation = ClsscInstantiation {
        code_id: config.clssc_code_id,
        admin: factory.clone(),
        label,
        msg: init,
    };
    let deployment = DeploymentRecord {
        id: next_id,
        issuer: sender.clone(),
        contract_addr: factory.clone(),
        name,
        symbol,
        decimals,
        peg_currency,
        reserve_type,
        reserve_uri,
        deployed_at: height,
        active: false,
        circulating_supply: 0,
        lifetime_minted: 0,
        lifetime_burned: 0,
        lifetime_fees: 0,
    };
    rec.deployments = rec.deployments + 1;
    let mut cfg = config;
    cfg.total_deployments = cfg.total_deployments + 1;
    Ok(
        DeployOutcome {
            instantiation,
            deployment,
            next_deployment_id: next_id + 1,
            issuer: rec,
            config: cfg,
        },
    )
}

/// One event of the chain's reply to the stablecoin instantiation.
#[derive(Clone, Debug, PartialEq, Eq)]
pub struct ReplyEvent {
    pub ty: String,
    pub attributes: Vec<(String, String)>,
}

/// Whether an attribute names the instantiated contract's address.
pub open spec fn is_address_attribute(a: (String, String)) -> bool {
    a.0@ == "_contract_address"@ || a.0@ == "contract_address"@
}

/// Whether an event is an instantiation event carrying an address attribute.
pub open spec fn carries_address(e: ReplyEvent) -> bool {
    e.ty@ == "instantiate"@ && exists|j: int|
        0 <= j < e.attributes.len() && is_address_attribute(e.attributes[j])
}

/// Attribute `j` of event `i` is the first address attribute of the first instantiation
/// event that carries one.
pub open spec fn first_address_at(events: Seq<ReplyEvent>, i: int, j: int) -> bool {
    &&& 0 <= i < events.len()
    &&& carries_address(events[i])
    &&& forall|k: int| 0 <= k < i ==> !carries_address(#[trigger] events[k])
    &&& 0 <= j < events[i].attributes.len()
    &&& is_address_attribute(events[i].attributes[j])
    &&& forall|k: int| 0 <= k < j ==> !is_address_attribute(#[trigger] events[i].attributes[k])
}

/// Error text when the reply names no address.
pub open spec fn missing_address_msg() -> Seq<char> {
    "Could not find contract address in reply events"@
}

/// Finds the instantiated contract's address in the reply events: the value of the first
/// address attribute of the first instantiation event that carries one.
pub fn extract_contract_addr(events: &Vec<ReplyEvent>) -> (r: Result<String, ContractError>)
    ensures
        (forall|i: int| 0 <= i < events.len() ==> !carries_address(#[trigger] events[i])) ==> (r
            matches Err(ContractError::InstantiationFailed { msg }) && msg@ == missing_address_msg()),
        (exists|i: int| 0 <= i < events.len() && carries_address(#[trigger] events[i])) ==> (r
            matches Ok(addr) && exists|i: int, j: int|
            #[trigger] first_address_at(events@, i, j) && addr == events[i].attributes[j].1),
{
    let instantiate = String::from_str("instantiate");
    let key1 = String::from_str("_contract_address");
    let key2 = String::from_str("contract_address");
    let n = events.len();
    let mut i: usize = 0;
    while i < n
        invariant
            n == events.len(),
            i <= n,
            instantiate@ == "instantiate"@,
            key1@ == "_contract_address"@,
            key2@ == "contract_address"@,
            forall|k: int| 0 <= k < i ==> !carries_address(#[trigger] events[k]),
        decreases n - i,
    {
        let ev = &events[i];
        if ev.ty == instantiate {
            let m = ev.attributes.len();
            let mut j: usize = 0;
            while j < m
                invariant
                    m == ev.attributes.len(),
                    j <= m,
                    n == events.len(),
                    i < n,
                    *ev == events@[i as int],
                    ev.ty@ == "instantiate"@,
                    forall|k: int| 0 <= k < i ==> !carries_address(#[trigger] events[k]),
                    key1@ == "_contract_address"@,
                    key2@ == "contract_address"@,
                    forall|k: int| 0 <= k < j ==> !is_address_attribute(#[trigger] ev.attributes[k]),
                decreases m - j,
            {
                let attr = &ev.attributes[j];
                if attr.0 == key1 || attr.0 == key2 {
                    assert(is_address_attribute(ev.attributes[j as int]));
                    assert(carries_address(events@[i as int]));
                    assert(first_address_at(events@, i as int, j as int));
                    return Ok(attr.1.clone());
                }
                j = j + 1;
            }
        }
        i = i + 1;
    }
    Err(
        ContractError::InstantiationFailed {
            msg: String::from_str("Could not find contract address in reply events"),
        },
    )
}

/// The deployment record once the chain confirmed its contract at `addr`.
pub fn activate_deployment(deployment: DeploymentRecord, addr: String) -> (r: DeploymentRecord)
    ensures
        r == (DeploymentRecord { contract_addr: addr, active: true, ..deployment }),
{
    let mut d = deployment;
    d.contract_addr = addr;
    d.active = true;
    d
}

/// The deployment that a reply concerns: the last one created.
pub fn pending_deployment_id(next_id: u64) -> (r: u64)
    requires
        next_id > 0,
    ensures
        r == next_id - 1,
{
    next_id - 1
}

/// Reply id of a stablecoin instantiation.
pub const REPLY_INSTANTIATE: u64 = 1;

/// Reads a reply from the chain: `id` is its id and `result` the submessage's events or
/// its error text. Other replies are ignored (`None`); a failed instantiation is
/// refused; otherwise the instantiated contract's address is found in the events.
pub fn reply_address(id: u64, result: Result<Vec<ReplyEvent>, String>) -> (r: Result<
    Option<String>,
    ContractError,
>)
    ensures
        id != REPLY_INSTANTIATE ==> r == Ok::<Option<String>, ContractError>(None),
        id == REPLY_INSTANTIATE && result is Err ==> r == Err::<Option<String>, _>(
            ContractError::InstantiationFailed { msg: result->Err_0 },
        ),
        id == REPLY_INSTANTIATE && result is Ok && (forall|i: int|
            0 <= i < result->Ok_0.len() ==> !carries_address(#[trigger] result->Ok_0[i])) ==> (r
            matches Err(ContractError::InstantiationFailed { msg }) && msg@
            == missing_address_msg()),
        id == REPLY_INSTANTIATE && result is Ok && (exists|i: int|
            0 <= i < result->Ok_0.len() && carries_address(#[trigger] result->Ok_0[i])) ==> (r
            matches Ok(Some(addr)) && exists|i: int, j: int|
            #[trigger] first_address_at(result->Ok_0@, i, j) && addr
                == result->Ok_0[i].attributes[j].1),
{
    if id != REPLY_INSTANTIATE {
        return Ok(None);
    }
    match result {
        Err(e) => Err(ContractError::InstantiationFailed { msg: e }),
        Ok(events) => match extract_contract_addr(&events) {
            Ok(a) => Ok(Some(a)),
            Err(e) => Err(e),
        },
    }
}

/// Completes the pending deployment once its stablecoin exists: `validated_address` is
/// the validation of the address found in the reply, `next_id` the next deployment id and
/// `deployment` the pending deployment (the last one created). Returns its id and its
/// active record.
pub fn complete_deployment(validated_address: AddrCheck, next_id: u64, deployment: DeploymentRecord) -> (r:
    Result<(u64, DeploymentRecord), ContractError>)
    requires
        next_id > 0,
    ensures
        validated_address is Err ==> r == Err::<(u64, DeploymentRecord), _>(
            ContractError::InvalidAddress { msg: validated_address->Err_0 },
        ),
        validated_address is Ok ==> r == Ok::<(u64, DeploymentRecord), ContractError>(
            (
                (next_id - 1) as u64,
                DeploymentRecord {
                    contract_addr: validated_address->Ok_0,
                    active: true,
                    ..deployment
                },
            ),
        ),
{
    match validated_address {
        Ok(a) => Ok((pending_deployment_id(next_id), activate_deployment(deployment, a))),
        Err(e) => Err(ContractError::InvalidAddress { msg: e }),
    }
}

/// Which supply event a stablecoin reports.
#[derive(Clone, Copy, Debug, PartialEq, Eq, Structural)]
pub enum ReportKind {
    Mint,
    Burn,
}

/// The fee the factory takes on a reported amount.
pub open spec fn report_fee(config: Config, kind: ReportKind, amount: u128) -> int {
    match kind {
        ReportKind::Mint => amount * config.mint_fee_bps / (MAX_BPS as int),
        ReportKind::Burn => amount * config.burn_fee_bps / (MAX_BPS as int),
    }
}

/// The first check of a supply report: a non-zero amount from a registered stablecoin
/// (`deployment_id` is the deployment registered for the sender). Returns the deployment.
pub fn authorize_report(amount: u128, deployment_id: Option<u64>) -> (r: Result<u64, ContractError>)
    ensures
        amount == 0 ==> r == Err::<u64, _>(ContractError::ZeroAmount),
        amount > 0 && deployment_id is None ==> r == Err::<u64, _>(
            ContractError::UnauthorizedCallback,
        ),
        amount > 0 && deployment_id is Some ==> r == Ok::<u64, ContractError>(deployment_id->0),
{
    if amount == 0 {
        return Err(ContractError::ZeroAmount);
    }
    match deployment_id {
        Some(id) => Ok(id),
        None => Err(ContractError::UnauthorizedCallback),
    }
}

/// What an accepted supply report writes.
#[derive(Clone, Debug, PartialEq, Eq)]
pub struct ReportOutcome {
    pub fee: u128,
    pub deployment: DeploymentRecord,
    /// The updated record of the deployment's issuer, when that issuer is registered.
    pub issuer: Option<IssuerRecord>,
    pub config: Config,
}

/// The deployment after a report of `amount` with `fee`: a mint grows the circulating
/// supply and lifetime minted amount, a burn shrinks the supply (not below zero) and
/// grows the lifetime burned amount; both add the fee.
pub open spec fn reported_deployment(
    d: DeploymentRecord,
    kind: ReportKind,
    amount: u128,
    fee: u128,
) -> DeploymentRecord {
    match kind {
        ReportKind::Mint => DeploymentRecord {
            circulating_supply: (d.circulating_supply + amount) as u128,
            lifetime_minted: (d.lifetime_minted + amount) as u128,
            lifetime_fees: (d.lifetime_fees + fee) as u128,
            ..d
        },
        ReportKind::Burn => DeploymentRecord {
            circulating_supply: if d.circulating_supply >= amount {
                (d.circulating_supply - amount) as u128
            } else {
                0
            },
            lifetime_burned: (d.lifetime_burned + amount) as u128,
            lifetime_fees: (d.lifetime_fees + fee) as u128,
            ..d
        },
    }
}

/// The issuer after a report of `amount` with `fee`.
pub open spec fn reported_issuer(i: IssuerRecord, kind: ReportKind, amount: u128, fee: u128) -> IssuerRecord {
    match kind {
        ReportKind::Mint => IssuerRecord {
            lifetime_minted: (i.lifetime_minted + amount) as u128,
            lifetime_fees: (i.lifetime_fees + fee) as u128,
            ..i
        },
        ReportKind::Burn => IssuerRecord {
            lifetime_burned: (i.lifetime_burned + amount) as u128,
            lifetime_fees: (i.lifetime_fees + fee) as u128,
            ..i
        },
    }
}

/// No counter of the deployment overflows under a report.
pub open spec fn deployment_report_fits(d: DeploymentRecord, kind: ReportKind, amount: u128, fee: int) -> bool {
    &&& d.lifetime_fees + fee <= u128::MAX
    &&& kind == ReportKind::Mint ==> d.circulating_supply + amount <= u128::MAX
        && d.lifetime_minted + amount <= u128::MAX
    &&& kind == ReportKind::Burn ==> d.lifetime_burned + amount <= u128::MAX
}

/// No counter of the issuer overflows under a report.
pub open spec fn issuer_report_fits(i: IssuerRecord, kind: ReportKind, amount: u128, fee: int) -> bool {
    &&& i.lifetime_fees + fee <= u128::MAX
    &&& kind == ReportKind::Mint ==> i.lifetime_minted + amount <= u128::MAX
    &&& kind == ReportKind::Burn ==> i.lifetime_burned + amount <= u128::MAX
}

/// Records a supply report from the stablecoin of `deployment`. A stablecoin reports only
/// its own events, so the issuer named in the report (validated as `validated_issuer`)
/// must be the deployment's issuer; otherwise the report is refused. The fee is taken at
/// the configured rate, and the deployment, its issuer (`issuer` is the stored record of
/// the deployment's issuer, when registered) and the factory's fee total grow; no other
/// issuer's record is touched.
pub fn record_report(
    config: Config,
    kind: ReportKind,
    deployment: DeploymentRecord,
    validated_issuer: AddrCheck,
    issuer: Option<IssuerRecord>,
    amount: u128,
) -> (r: Result<ReportOutcome, ContractError>)
    requires
        report_fee(config, kind, amount) <= u128::MAX,
        deployment_report_fits(deployment, kind, amount, report_fee(config, kind, amount)),
        validated_issuer is Ok && validated_issuer->Ok_0@ == deployment.issuer@ && issuer is Some
            ==> issuer_report_fits(issuer->0, kind, amount, report_fee(config, kind, amount)),
        validated_issuer is Ok && validated_issuer->Ok_0@ == deployment.issuer@
            ==> config.total_fees_collected + report_fee(config, kind, amount) <= u128::MAX,
    ensures
        r is Ok ==> validated_issuer is Ok && validated_issuer->Ok_0@ == deployment.issuer@,
        validated_issuer is Err ==> r == Err::<ReportOutcome, _>(
            ContractError::InvalidAddress { msg: validated_issuer->Err_0 },
        ),
        validated_issuer is Ok && validated_issuer->Ok_0@ != deployment.issuer@ ==> r == Err::<
            ReportOutcome,
            _,
        >(ContractError::UnauthorizedCallback),
        validated_issuer is Ok && validated_issuer->Ok_0@ == deployment.issuer@ ==> ({
            let fee = report_fee(config, kind, amount) as u128;
            r == Ok::<ReportOutcome, ContractError>(
                ReportOutcome {
                    fee,
                    deployment: reported_deployment(deployment, kind, amount, fee),
                    issuer: match issuer {
                        Some(i) => Some(reported_issuer(i, kind, amount, fee)),
                        None => None,
                    },
                    config: Config {
                        total_fees_collected: (config.total_fees_collected + fee) as u128,
                        ..config
                    },
                },
            )
        }),
{
    let bps = match kind {
        ReportKind::Mint => config.mint_fee_bps,
        ReportKind::Burn => config.burn_fee_bps,
    };
    let fee = multiply_ratio(amount, bps, 10_000);
    let mut d = deployment;
    match kind {
        ReportKind::Mint => {
            d.circulating_supply = d.circulating_supply + amount;
            d.lifetime_minted = d.lifetime_minted + amount;
        },
        ReportKind::Burn => {
            d.circulating_supply = if d.circulating_supply >= amount {
                d.circulating_supply - amount
            } else {
                0
            };
            d.lifetime_burned = d.lifetime_burned + amount;
        },
    }
    d.lifetime_fees = d.lifetime_fees + fee;
    match validated_issuer {
        Ok(a) => {
            if a != d.issuer {
                return Err(ContractError::UnauthorizedCallback);
            }
        },
        Err(e) => {
            return Err(ContractError::InvalidAddress { msg: e });
        },
    }
    let updated_issuer = match issuer {
        Some(mut i) => {
            match kind {
                ReportKind::Mint => {
                    i.lifetime_minted = i.lifetime_minted + amount;
                },
                ReportKind::Burn => {
                    i.lifetime_burned = i.lifetime_burned + amount;
                },
            }
            i.lifetime_fees = i.lifetime_fees + fee;
            Some(i)
        },
        None => None,
    };
    let mut cfg = config;
    cfg.total_fees_collected = cfg.total_fees_collected + fee;
    Ok(ReportOutcome { fee, deployment: d, issuer: updated_issuer, config: cfg })
}

/// Finds the deployment of a registered stablecoin for the admin (pause and unpause):
/// `validated_address` is the validation of `contract_addr` and `deployment_id` the
/// deployment registered for the validated address.
pub fn locate_contract(
    config: &Config,
    sender: &String,
    contract_addr: &String,
    validated_address: AddrCheck,
    deployment_id: Option<u64>,
) -> (r: Result<u64, ContractError>)
    ensures
        sender@ != config.admin@ ==> r == Err::<u64, _>(ContractError::Unauthorized),
        sender@ == config.admin@ && validated_address is Err ==> r == Err::<u64, _>(
            ContractError::InvalidAddress { msg: validated_address->Err_0 },
        ),
        sender@ == config.admin@ && validated_address is Ok && deployment_id is None ==> (r matches Err(
            ContractError::ContractNotFound { addr },
        ) && addr@ == contract_addr@),
        sender@ == config.admin@ && validated_address is Ok && deployment_id is Some ==> r == Ok::<
            u64,
            ContractError,
        >(deployment_id->0),
{
    if !is_admin(config, sender) {
        return Err(ContractError::Unauthorized);
    }
    if let Err(e) = validated_address {
        return Err(ContractError::InvalidAddress { msg: e });
    }
    match deployment_id {
        Some(id) => Ok(id),
        None => Err(ContractError::ContractNotFound { addr: contract_addr.clone() }),
    }
}

/// A request the factory sends to one of its stablecoins.
#[derive(Clone, Debug, PartialEq, Eq)]
pub struct ContractCall {
    pub contract_addr: String,
    pub msg: ClsscExecuteMsg,
}

/// Pauses or resumes a located stablecoin: the deployment is marked inactive or active
/// and the stablecoin itself is told to pause or unpause.
pub fn toggle_contract(deployment: DeploymentRecord, contract_addr: String, pause: bool) -> (r: (
    DeploymentRecord,
    ContractCall,
))
    ensures
        r.0 == (DeploymentRecord { active: !pause, ..deployment }),
        r.1 == (ContractCall {
            contract_addr,
            msg: if pause {
                ClsscExecuteMsg::Pause
            } else {
                ClsscExecuteMsg::Unpause
            },
        }),
{
    let mut d = deployment;
    d.active = !pause;
    let msg = if pause {
        ClsscExecuteMsg::Pause
    } else {
        ClsscExecuteMsg::Unpause
    };
    (d, ContractCall { contract_addr, msg })
}

/// Updates fees, the fee collector, registrations and the template code (admin only);
/// `fee_collector` is the validation of the new collector address, when one is given.
pub fn update_config(
    config: Config,
    sender: &String,
    mint_fee_bps: Option<u64>,
    burn_fee_bps: Option<u64>,
    fee_collector: Option<AddrCheck>,
    accepting_registrations: Option<bool>,
    clssc_code_id: Option<u64>,
) -> (r: Result<Config, ContractError>)
    ensures
        r matches Ok(c) ==> (config.mint_fee_bps <= MAX_BPS ==> c.mint_fee_bps <= MAX_BPS)
            && (config.burn_fee_bps <= MAX_BPS ==> c.burn_fee_bps <= MAX_BPS),
        sender@ != config.admin@ ==> r == Err::<Config, _>(ContractError::Unauthorized),
        sender@ == config.admin@ && mint_fee_bps is Some && mint_fee_bps->0 > MAX_BPS ==> r
            == Err::<Config, _>(ContractError::InvalidBps { bps: mint_fee_bps->0 }),
        sender@ == config.admin@ && !(mint_fee_bps is Some && mint_fee_bps->0 > MAX_BPS)
            && burn_fee_bps is Some && burn_fee_bps->0 > MAX_BPS ==> r == Err::<Config, _>(
            ContractError::InvalidBps { bps: burn_fee_bps->0 },
        ),
        sender@ == config.admin@ && !(mint_fee_bps is Some && mint_fee_bps->0 > MAX_BPS)
            && !(burn_fee_bps is Some && burn_fee_bps->0 > MAX_BPS) && fee_collector is Some
            && fee_collector->0 is Err ==> r == Err::<Config, _>(
            ContractError::Std(StdError::GenericErr { msg: fee_collector->0->Err_0 }),
        ),
        sender@ == config.admin@ && !(mint_fee_bps is Some && mint_fee_bps->0 > MAX_BPS)
            && !(burn_fee_bps is Some && burn_fee_bps->0 > MAX_BPS) && !(fee_collector is Some
            && fee_collector->0 is Err) ==> r == Ok::<Config, ContractError>(
            Config {
                mint_fee_bps: match mint_fee_bps {
                    Some(v) => v,
                    None => config.mint_fee_bps,
                },
                burn_fee_bps: match burn_fee_bps {
                    Some(v) => v,
                    None => config.burn_fee_bps,
                },
                fee_collector: match fee_collector {
                    Some(c) => c->Ok_0,
                    None => config.fee_collector,
                },
                accepting_registrations: match accepting_registrations {
                    Some(v) => v,
                    None => config.accepting_registrations,
                },
                clssc_code_id: match clssc_code_id {
                    Some(v) => v,
                    None => config.clssc_code_id,
                },
                ..config
            },
        ),
{
    if !is_admin(&config, sender) {
        return Err(ContractError::Unauthorized);
    }
    let mut cfg = config;
    if let Some(v) = mint_fee_bps {
        if v > MAX_BPS {
            return Err(ContractError::InvalidBps { bps: v });
        }
        cfg.mint_fee_bps = v;
    }
    if let Some(v) = burn_fee_bps {
        if v > MAX_BPS {
            return Err(ContractError::InvalidBps { bps: v });
        }
        cfg.burn_fee_bps = v;
    }
    match fee_collector {
        Some(Ok(a)) => {
            cfg.fee_collector = a;
        },
        Some(Err(e)) => {
            return Err(ContractError::Std(StdError::GenericErr { msg: e }));
        },
        None => {},
    }
    if let Some(v) = accepting_registrations {
        cfg.accepting_registrations = v;
    }
    if let Some(v) = clssc_code_id {
        cfg.clssc_code_id = v;
    }
    Ok(cfg)
}

/// Adds or updates an approved reserve asset (admin only). Returns the asset to store.
pub fn set_approved_asset(config: &Config, sender: &String, id: String, name: String, approved: bool) -> (r:
    Result<ApprovedAsset, ContractError>)
    ensures
        sender@ != config.admin@ ==> r == Err::<ApprovedAsset, _>(ContractError::Unauthorized),
        sender@ == config.admin@ ==> r == Ok::<ApprovedAsset, ContractError>(
            ApprovedAsset { id, name, approved },
        ),
{
    if !is_admin(config, sender) {
        return Err(ContractError::Unauthorized);
    }
    Ok(ApprovedAsset { id, name, approved })
}

/// Hands the admin role to another address (admin only).
pub fn transfer_admin(config: Config, sender: &String, validated_address: AddrCheck) -> (r: Result<
    Config,
    ContractError,
>)
    ensures
        sender@ != config.admin@ ==> r == Err::<Config, _>(ContractError::Unauthorized),
        sender@ == config.admin@ && validated_address is Err ==> r == Err::<Config, _>(
            ContractError::InvalidAddress { msg: validated_address->Err_0 },
        ),
        sender@ == config.admin@ && validated_address is Ok ==> r == Ok::<Config, ContractError>(
            Config { admin: validated_address->Ok_0, ..config },
        ),
{
    if !is_admin(&config, sender) {
        return Err(ContractError::Unauthorized);
    }
    match validated_address {
        Ok(a) => {
            let mut cfg = config;
            cfg.admin = a;
            Ok(cfg)
        },
        Err(e) => Err(ContractError::InvalidAddress { msg: e }),
    }
}

/// A copy of an issuer record.
pub fn copy_issuer(i: &IssuerRecord) -> (r: IssuerRecord)
    ensures
        r == *i,
{
    IssuerRecord {
        address: i.address.clone(),
        legal_name: i.legal_name.clone(),
        jurisdiction: i.jurisdiction.clone(),
        kyc_ref: i.kyc_ref.clone(),
        status: i.status,
        reserve_type: i.reserve_type,
        reserve_uri: i.reserve_uri.clone(),
        registered_at: i.registered_at,
        approved_at: i.approved_at,
        deployments: i.deployments,
        lifetime_minted: i.lifetime_minted,
        lifetime_burned: i.lifetime_burned,
        lifetime_fees: i.lifetime_fees,
    }
}

/// A copy of a deployment record.
pub fn copy_deployment(d: &DeploymentRecord) -> (r: DeploymentRecord)
    ensures
        r == *d,
{
    DeploymentRecord {
        id: d.id,
        issuer: d.issuer.clone(),
        contract_addr: d.contract_addr.clone(),
        name: d.name.clone(),
        symbol: d.symbol.clone(),
        decimals: d.decimals,
        peg_currency: d.peg_currency.clone(),
        reserve_type: d.reserve_type,
        reserve_uri: d.reserve_uri.clone(),
        deployed_at: d.deployed_at,
        active: d.active,
        circulating_supply: d.circulating_supply,
        lifetime_minted: d.lifetime_minted,
        lifetime_burned: d.lifetime_burned,
        lifetime_fees: d.lifetime_fees,
    }
}

/// The page size of a listing.
pub open spec fn list_limit(limit: Option<u32>) -> nat {
    match limit {
        Some(l) => l as nat,
        None => DEFAULT_LIST_LIMIT as nat,
    }
}

/// Issuers strictly after `start` in address order (all of them without a start).
pub open spec fn issuer_after(start: Option<String>) -> spec_fn(IssuerRecord) -> bool {
    |i: IssuerRecord|
        match start {
            Some(s) => seq_lt(s@, i.address@),
            None => true,
        }
}

/// Lists issuers: `issuers` are all issuers in ascending address order and `start_after`
/// the validation of the optional start address. The status filter of the request is
/// not applied.
pub fn list_issuers(issuers: &Vec<IssuerRecord>, start_after: Option<AddrCheck>, limit: Option<u32>) -> (r:
    Result<Vec<IssuerRecord>, StdError>)
    ensures
        start_after is Some && start_after->0 is Err ==> r == Err::<Vec<IssuerRecord>, _>(
            StdError::GenericErr { msg: start_after->0->Err_0 },
        ),
        !(start_after is Some && start_after->0 is Err) ==> (r matches Ok(v) && v@ == prefix(
            issuers@.filter(
                issuer_after(
                    match start_after {
                        Some(c) => Some(c->Ok_0),
                        None => None,
                    },
                ),
            ),
            list_limit(limit),
        )),
{
    let start: Option<String> = match start_after {
        Some(Ok(a)) => Some(a),
        Some(Err(e)) => {
            return Err(StdError::GenericErr { msg: e });
        },
        None => None,
    };
    let l: usize = match limit {
        Some(v) => v as usize,
        None => DEFAULT_LIST_LIMIT as usize,
    };
    let ghost p = issuer_after(start);
    let mut out: Vec<IssuerRecord> = Vec::new();
    let n = issuers.len();
    let mut i: usize = 0;
    while i < n
        invariant
            n == issuers.len(),
            i <= n,
            l == list_limit(limit),
            p == issuer_after(start),
            out@ == prefix(issuers@.take(i as int).filter(p), l as nat),
        decreases n - i,
    {
        let rec = &issuers[i];
        let keep = match &start {
            Some(s) => str_lt(s, &rec.address),
            None => true,
        };
        proof {
            issuers@.take(i as int).lemma_filter_push(*rec, p);
            assert(issuers@.take(i + 1) =~= issuers@.take(i as int).push(*rec));
            assert(keep == p(*rec));
        }
        let ghost f = issuers@.take(i as int).filter(p);
        if keep && out.len() < l {
            out.push(copy_issuer(rec));
            proof {
                assert(prefix(f.push(*rec), l as nat) =~= f.push(*rec));
                assert(prefix(f, l as nat) =~= f);
            }
        } else {
            proof {
                if keep {
                    assert(prefix(f.push(*rec), l as nat) =~= prefix(f, l as nat));
                }
            }
        }
        i = i + 1;
    }
    assert(issuers@.take(n as int) =~= issuers@);
    Ok(out)
}

/// Deployments with an id above `start` (all positive ids when none is given).
pub open spec fn deployment_after(start: Option<u64>) -> spec_fn(DeploymentRecord) -> bool {
    |d: DeploymentRecord|
        d.id > match start {
            Some(s) => s,
            None => 0,
        }
}

/// Lists deployments: `deployments` are all deployments in ascending id order. The
/// issuer filter of the request is not applied.
pub fn list_deployments(deployments: &Vec<DeploymentRecord>, start_after: Option<u64>, limit: Option<u32>) -> (r:
    Vec<DeploymentRecord>)
    ensures
        r@ == prefix(deployments@.filter(deployment_after(start_after)), list_limit(limit)),
{
    let start: u64 = match start_after {
        Some(s) => s,
        None => 0,
    };
    let l: usize = match limit {
        Some(v) => v as usize,
        None => DEFAULT_LIST_LIMIT as usize,
    };
    let ghost p = deployment_after(start_after);
    let mut out: Vec<DeploymentRecord> = Vec::new();
    let n = deployments.len();
    let mut i: usize = 0;
    while i < n
        invariant
            n == deployments.len(),
            i <= n,
            l == list_limit(limit),
            p == deployment_after(start_after),
            start == match start_after {
                Some(s) => s,
                None => 0,
            },
            out@ == prefix(deployments@.take(i as int).filter(p), l as nat),
        decreases n - i,
    {
        let rec = &deployments[i];
        let keep = rec.id > start;
        proof {
            deployments@.take(i as int).lemma_filter_push(*rec, p);
            assert(deployments@.take(i + 1) =~= deployments@.take(i as int).push(*rec));
        }
        let ghost f = deployments@.take(i as int).filter(p);
        if keep && out.len() < l {
            out.push(copy_deployment(rec));
            proof {
                assert(prefix(f.push(*rec), l as nat) =~= f.push(*rec));
                assert(prefix(f, l as nat) =~= f);
            }
        } else {
            proof {
                if keep {
                    assert(prefix(f.push(*rec), l as nat) =~= prefix(f, l as nat));
                }
            }
        }
        i = i + 1;
    }
    assert(deployments@.take(n as int) =~= deployments@);
    out
}

/// Whether an issuer is approved.
pub open spec fn is_approved() -> spec_fn(IssuerRecord) -> bool {
    |i: IssuerRecord| i.status == IssuerStatus::Approved
}

/// Registry statistics over all issuers.
pub fn registry_stats(config: &Config, issuers: &Vec<IssuerRecord>) -> (r: RegistryStatsResponse)
    requires
        issuers.len() <= u64::MAX,
    ensures
        r == (RegistryStatsResponse {
            total_issuers: issuers.len() as u64,
            approved_issuers: issuers@.filter(is_approved()).len() as u64,
            total_deployments: config.total_deployments,
            total_fees_collected: config.total_fees_collected,
        }),
{
    let mut approved: u64 = 0;
    let n = issuers.len();
    let mut i: usize = 0;
    while i < n
        invariant
            n == issuers.len(),
            n <= u64::MAX,
            i <= n,
            approved == issuers@.take(i as int).filter(is_approved()).len(),
        decreases n - i,
    {
        proof {
            issuers@.take(i as int).lemma_filter_len_push(is_approved(), issuers@[i as int]);
            assert(issuers@.take(i + 1) =~= issuers@.take(i as int).push(issuers@[i as int]));
            issuers@.take(i as int).lemma_filter_len(is_approved());
        }
        if issuers[i].status == IssuerStatus::Approved {
            approved = approved + 1;
        }
        i = i + 1;
    }
    assert(issuers@.take(n as int) =~= issuers@);
    RegistryStatsResponse {
        total_issuers: n as u64,
        approved_issuers: approved,
        total_deployments: config.total_deployments,
        total_fees_collected: config.total_fees_collected,
    }
}

/// The fee settings and total as a query answer.
pub fn fee_info(config: &Config) -> (r: FeeInfoResponse)
    ensures
        r == (FeeInfoResponse {
            mint_fee_bps: config.mint_fee_bps,
            burn_fee_bps: config.burn_fee_bps,
            fee_collector: config.fee_collector,
            total_fees_collected: config.total_fees_collected,
        }),
{
    FeeInfoResponse {
        mint_fee_bps: config.mint_fee_bps,
        burn_fee_bps: config.burn_fee_bps,
        fee_collector: config.fee_collector.clone(),
        total_fees_collected: config.total_fees_collected,
    }
}

} // verus!

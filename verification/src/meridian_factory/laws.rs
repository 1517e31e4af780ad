//! Properties of the factory's issuer lifecycle and fee accounting.
use super::contract::{
    deactivated, decided, deployment_after, first_address_at, freezes_contracts, is_approved,
    is_live, issuer_after, list_limit, pause_call, report_fee, reported_deployment,
    reported_issuer, status_name, IssuerDecision, ReplyEvent, ReportKind, MAX_BPS,
};
use crate::common::seq_lt;
use crate::clssc::msg::ExecuteMsg as ClsscExecuteMsg;
use super::state::{Config, DeploymentRecord, IssuerRecord, IssuerStatus};
use vstd::prelude::*;

verus! {

/// With fees of at most 100% (as instantiation enforces), the fee on a reported amount
/// never exceeds the amount.
pub proof fn law_fee_at_most_amount(config: Config, kind: ReportKind, amount: u128)
    requires
        config.mint_fee_bps <= MAX_BPS,
        config.burn_fee_bps <= MAX_BPS,
    ensures
        0 <= report_fee(config, kind, amount) <= amount,
{
    let bps: int = match kind {
        ReportKind::Mint => config.mint_fee_bps as int,
        ReportKind::Burn => config.burn_fee_bps as int,
    };
    assert(0 <= amount * bps / 10000 <= amount) by (nonlinear_arith)
        requires
            0 <= bps <= 10000,
            amount >= 0,
    ;
}

/// After an administrative decision, an issuer may deploy stablecoins exactly when it
/// was not revoked and the decision was an approval or a reinstatement.
pub proof fn law_decision_controls_deployment(issuer: IssuerRecord, decision: IssuerDecision, height: u64)
    ensures
        (decided(issuer, decision, height).status == IssuerStatus::Approved) <==> (issuer.status
            != IssuerStatus::Revoked && (decision == IssuerDecision::Approve || decision
            == IssuerDecision::Reinstate)),
{
}

/// The issuer record after a series of decisions, each with its block height.
pub open spec fn decided_all(issuer: IssuerRecord, decisions: Seq<(IssuerDecision, u64)>) -> IssuerRecord
    decreases decisions.len(),
{
    if decisions.len() == 0 {
        issuer
    } else {
        decided(
            decided_all(issuer, decisions.drop_last()),
            decisions.last().0,
            decisions.last().1,
        )
    }
}

/// Revocation bars an issuer for good: whatever decisions follow, the record stays as
/// it was revoked, so the issuer can never deploy again.
pub proof fn law_revocation_is_permanent(issuer: IssuerRecord, decisions: Seq<(IssuerDecision, u64)>)
    requires
        issuer.status == IssuerStatus::Revoked,
    ensures
        decided_all(issuer, decisions) == issuer,
    decreases decisions.len(),
{
    if decisions.len() > 0 {
        law_revocation_is_permanent(issuer, decisions.drop_last());
    }
}

/// A decision changes only the issuer's status and, for an approval, its approval height:
/// identity, declarations and statistics are kept.
pub proof fn law_decision_keeps_record(issuer: IssuerRecord, decision: IssuerDecision, height: u64)
    ensures
        ({
            let d = decided(issuer, decision, height);
            &&& d.address == issuer.address
            &&& d.legal_name == issuer.legal_name
            &&& d.kyc_ref == issuer.kyc_ref
            &&& d.reserve_uri == issuer.reserve_uri
            &&& d.deployments == issuer.deployments
            &&& d.lifetime_minted == issuer.lifetime_minted
            &&& d.lifetime_burned == issuer.lifetime_burned
            &&& d.lifetime_fees == issuer.lifetime_fees
            &&& decision != IssuerDecision::Approve ==> d.approved_at == issuer.approved_at
        }),
{
}

/// The fee on a report is the configured basis points of the amount, rounded down: the
/// mint fee for a mint report, the burn fee for a burn report.
pub proof fn law_report_fee_rate(config: Config, kind: ReportKind, amount: u128)
    ensures
        ({
            let bps: int = if kind == ReportKind::Mint {
                config.mint_fee_bps as int
            } else {
                config.burn_fee_bps as int
            };
            let f = report_fee(config, kind, amount);
            f * 10_000 <= amount * bps < (f + 1) * 10_000
        }),
{
    let bps: int = if kind == ReportKind::Mint {
        config.mint_fee_bps as int
    } else {
        config.burn_fee_bps as int
    };
    let x = amount * bps;
    assert(x >= 0) by (nonlinear_arith)
        requires
            x == amount * bps,
            bps >= 0,
    ;
    assert(x / 10_000 * 10_000 <= x < (x / 10_000 + 1) * 10_000) by (nonlinear_arith)
        requires
            x >= 0,
    ;
}

/// A report accumulates into the deployment's totals: a mint adds the amount to the
/// circulating supply and to the lifetime minted total, a burn takes it off the
/// circulating supply (never below zero) and adds it to the lifetime burned total, and
/// both add the fee to the lifetime fees. Nothing else of the deployment changes.
pub proof fn law_report_accumulates_deployment(
    d: DeploymentRecord,
    kind: ReportKind,
    amount: u128,
    fee: u128,
)
    requires
        d.lifetime_fees + fee <= u128::MAX,
        kind == ReportKind::Mint ==> d.circulating_supply + amount <= u128::MAX
            && d.lifetime_minted + amount <= u128::MAX,
        kind == ReportKind::Burn ==> d.lifetime_burned + amount <= u128::MAX,
    ensures
        ({
            let n = reported_deployment(d, kind, amount, fee);
            &&& n.lifetime_fees == d.lifetime_fees + fee
            &&& kind == ReportKind::Mint ==> n.circulating_supply == d.circulating_supply + amount
                && n.lifetime_minted == d.lifetime_minted + amount && n.lifetime_burned
                == d.lifetime_burned
            &&& kind == ReportKind::Burn ==> n.lifetime_burned == d.lifetime_burned + amount
                && n.lifetime_minted == d.lifetime_minted && (d.circulating_supply >= amount
                ==> n.circulating_supply == d.circulating_supply - amount) && (
            d.circulating_supply < amount ==> n.circulating_supply == 0)
            &&& n.id == d.id && n.issuer == d.issuer && n.contract_addr == d.contract_addr
            &&& n.name == d.name && n.symbol == d.symbol && n.decimals == d.decimals
            &&& n.peg_currency == d.peg_currency && n.reserve_type == d.reserve_type
            &&& n.reserve_uri == d.reserve_uri && n.deployed_at == d.deployed_at
            &&& n.active == d.active
        }),
{
}

/// A report accumulates into the issuer's totals in the same way: the amount into its
/// lifetime minted or burned total, the fee into its lifetime fees; nothing else of the
/// issuer changes.
pub proof fn law_report_accumulates_issuer(i: IssuerRecord, kind: ReportKind, amount: u128, fee: u128)
    requires
        i.lifetime_fees + fee <= u128::MAX,
        kind == ReportKind::Mint ==> i.lifetime_minted + amount <= u128::MAX,
        kind == ReportKind::Burn ==> i.lifetime_burned + amount <= u128::MAX,
    ensures
        ({
            let n = reported_issuer(i, kind, amount, fee);
            &&& n.lifetime_fees == i.lifetime_fees + fee
            &&& kind == ReportKind::Mint ==> n.lifetime_minted == i.lifetime_minted + amount
                && n.lifetime_burned == i.lifetime_burned
            &&& kind == ReportKind::Burn ==> n.lifetime_burned == i.lifetime_burned + amount
                && n.lifetime_minted == i.lifetime_minted
            &&& n.address == i.address && n.status == i.status && n.deployments
                == i.deployments && n.legal_name == i.legal_name && n.kyc_ref == i.kyc_ref
            &&& n.jurisdiction == i.jurisdiction && n.reserve_type == i.reserve_type
            &&& n.reserve_uri == i.reserve_uri && n.registered_at == i.registered_at
            &&& n.approved_at == i.approved_at
        }),
{
}

/// What each decision does to an issuer that is not revoked: approval approves it and
/// records the block height, suspension suspends it, revocation revokes it, and
/// reinstatement approves it again without a new approval height.
pub proof fn law_decision_effects(issuer: IssuerRecord, decision: IssuerDecision, height: u64)
    requires
        issuer.status != IssuerStatus::Revoked,
    ensures
        ({
            let d = decided(issuer, decision, height);
            &&& decision == IssuerDecision::Approve ==> d.status == IssuerStatus::Approved
                && d.approved_at == Some(height)
            &&& decision == IssuerDecision::Suspend ==> d.status == IssuerStatus::Suspended
            &&& decision == IssuerDecision::Revoke ==> d.status == IssuerStatus::Revoked
            &&& decision == IssuerDecision::Reinstate ==> d.status == IssuerStatus::Approved
                && d.approved_at == issuer.approved_at
        }),
{
}

/// Suspension freezes exactly the issuer's live stablecoins: a deployment is frozen
/// precisely when it is active, freezing marks it inactive and changes nothing else, and
/// the request sent pauses that deployment's own contract. Only the suspension of an
/// issuer that is not revoked freezes anything.
pub proof fn law_suspension_freezes_live_contracts(
    issuer: IssuerRecord,
    decision: IssuerDecision,
    d: DeploymentRecord,
)
    ensures
        freezes_contracts(issuer, decision) <==> (decision == IssuerDecision::Suspend
            && issuer.status != IssuerStatus::Revoked),
        is_live()(d) <==> d.active,
        deactivated(d) == (DeploymentRecord { active: false, ..d }),
        pause_call(d).contract_addr == d.contract_addr,
        pause_call(d).msg == ClsscExecuteMsg::Pause,
{
}

/// No address comes strictly after itself.
proof fn lemma_seq_lt_irreflexive(a: Seq<char>)
    ensures
        !seq_lt(a, a),
    decreases a.len(),
{
    if a.len() > 0 {
        lemma_seq_lt_irreflexive(a.drop_first());
    }
}

/// Listings page strictly after their start: an issuer page keeps the issuers whose
/// address comes after the start (never the start itself), a deployment page the
/// deployments with a larger id (all ids above zero without a start); pages hold 30
/// entries unless another limit is asked for. The registry counts as approved exactly the
/// issuers whose status is Approved.
pub proof fn law_listing_pages(
    start: Option<String>,
    i: IssuerRecord,
    from: Option<u64>,
    d: DeploymentRecord,
    limit: Option<u32>,
)
    ensures
        start is None ==> issuer_after(start)(i),
        start is Some ==> (issuer_after(start)(i) <==> seq_lt(start->0@, i.address@)),
        start is Some && start->0@ == i.address@ ==> !issuer_after(start)(i),
        from is Some ==> (deployment_after(from)(d) <==> d.id > from->0),
        from is None ==> (deployment_after(from)(d) <==> d.id > 0),
        limit is None ==> list_limit(limit) == 30,
        limit is Some ==> list_limit(limit) == limit->0,
        is_approved()(i) <==> i.status == IssuerStatus::Approved,
{
    lemma_seq_lt_irreflexive(i.address@);
}

/// An issuer that is not approved is told its status by name, and the names tell the
/// statuses apart.
pub proof fn law_status_names(a: IssuerStatus, b: IssuerStatus)
    ensures
        status_name(a) == status_name(b) <==> a == b,
        status_name(IssuerStatus::Pending) == "Pending"@,
        status_name(IssuerStatus::Suspended) == "Suspended"@,
        status_name(IssuerStatus::Revoked) == "Revoked"@,
{
    reveal_strlit("Pending");
    reveal_strlit("Approved");
    reveal_strlit("Suspended");
    reveal_strlit("Revoked");
    if status_name(a) == status_name(b) && a != b {
        assert(status_name(a)[0] != status_name(b)[0] || status_name(a).len() != status_name(b).len());
    }
}

/// The address a reply yields comes from an instantiation event, under one of the two
/// attribute keys the chain uses for the new contract's address.
pub proof fn law_reply_address_source(events: Seq<ReplyEvent>, i: int, j: int)
    requires
        first_address_at(events, i, j),
    ensures
        0 <= i < events.len(),
        events[i].ty@ == "instantiate"@,
        0 <= j < events[i].attributes.len(),
        events[i].attributes[j].0@ == "_contract_address"@ || events[i].attributes[j].0@
            == "contract_address"@,
{
}

} // verus!

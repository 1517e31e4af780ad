//! Properties of round finalisation and of the mint check that hold for every input.
use super::contract::{
    evicted_round, history_limit, median, mint_covered, proposed_total, saturating_sub_u128,
    saturating_sub_u64, submitted_values, MAX_HISTORY,
};
use super::state::{Config, OracleSubmission, RoundData};
use crate::math::{amount_leq, lemma_amount_leq_total, sorted_amounts};
use vstd::prelude::*;
use vstd::relations::sorted_by;

verus! {

/// The amounts that lie in the band `[lo, hi]`.
pub open spec fn in_band(lo: u128, hi: u128) -> spec_fn(u128) -> bool {
    |v: u128| lo <= v && v <= hi
}

/// Filtering keeps as many elements of a sequence as of any rearrangement of it.
proof fn lemma_filter_len_perm(s: Seq<u128>, t: Seq<u128>, p: spec_fn(u128) -> bool)
    requires
        s.to_multiset() == t.to_multiset(),
    ensures
        s.filter(p).len() == t.filter(p).len(),
    decreases s.len(),
{
    broadcast use vstd::seq_lib::group_to_multiset_ensures;
    broadcast use vstd::multiset::group_multiset_axioms;

    if s.len() == 0 {
        assert(t.to_multiset().len() == 0);
        assert(t.len() == 0);
        assert(s =~= t);
    } else {
        let x = s.last();
        let s1 = s.drop_last();
        assert(s.to_multiset().count(x) > 0) by {
            assert(s.contains(x)) by {
                assert(s[s.len() - 1] == x);
            }
        }
        assert(t.contains(x));
        let j = choose|j: int| 0 <= j < t.len() && t[j] == x;
        let t1 = t.remove(j);
        assert(s1.to_multiset() == s.to_multiset().remove(x)) by {
            assert(s1 =~= s.remove(s.len() - 1));
        }
        assert(t1.to_multiset() == t.to_multiset().remove(x));
        lemma_filter_len_perm(s1, t1, p);
        assert(s =~= s1.push(x));
        s1.lemma_filter_len_push(p, x);
        let a = t.take(j);
        let b = t.skip(j + 1);
        assert(t =~= a + seq![x] + b);
        assert(t1 =~= a + b);
        Seq::filter_distributes_over_add(a + seq![x], b, p);
        Seq::filter_distributes_over_add(a, b, p);
        a.lemma_filter_len_push(p, x);
        assert(a + seq![x] =~= a.push(x));
    }
}

/// No element of `s` satisfies `p`, so filtering keeps none of them.
proof fn lemma_filter_none(s: Seq<u128>, p: spec_fn(u128) -> bool)
    requires
        forall|i: int| 0 <= i < s.len() ==> !p(#[trigger] s[i]),
    ensures
        s.filter(p).len() == 0,
{
    s.lemma_all_neg_filter_empty(p);
}

/// The finalised reserve is always one of the submitted values.
pub proof fn law_median_is_a_submission(vals: Seq<u128>)
    requires
        vals.len() > 0,
    ensures
        vals.contains(median(vals)),
{
    broadcast use vstd::seq_lib::group_to_multiset_ensures;

    lemma_amount_leq_total();
    vals.lemma_sort_by_ensures(amount_leq());
    let s = sorted_amounts(vals);
    assert(s.to_multiset().len() == vals.to_multiset().len());
    let k = vals.len() as int / 2;
    assert(s.contains(s[k]));
    assert(s.to_multiset().count(s[k]) > 0);
}

/// A majority of honest oracles decides the round: when more than half of the
/// submitted values lie in a band `[lo, hi]`, the finalised reserve lies in that band,
/// whatever the other submissions are.
pub proof fn law_median_within_majority_band(vals: Seq<u128>, lo: u128, hi: u128)
    requires
        vals.len() > 0,
        2 * vals.filter(in_band(lo, hi)).len() > vals.len(),
    ensures
        lo <= median(vals) <= hi,
{
    broadcast use vstd::seq_lib::group_to_multiset_ensures;

    lemma_amount_leq_total();
    vals.lemma_sort_by_ensures(amount_leq());
    let s = sorted_amounts(vals);
    let p = in_band(lo, hi);
    let n = vals.len() as int;
    let k = n / 2;
    assert(s.to_multiset().len() == vals.to_multiset().len());
    assert(s.len() == n);
    lemma_filter_len_perm(vals, s, p);
    let m = s[k];
    assert(sorted_by(s, amount_leq()));
    if m < lo {
        let low = s.take(k + 1);
        let high = s.skip(k + 1);
        assert forall|i: int| 0 <= i < low.len() implies !p(#[trigger] low[i]) by {
            if i < k {
                assert(amount_leq()(s[i], s[k]));
            }
        }
        lemma_filter_none(low, p);
        assert(s =~= low + high);
        Seq::filter_distributes_over_add(low, high, p);
        high.lemma_filter_len(p);
        assert(false);
    }
    if m > hi {
        let low = s.take(k);
        let high = s.skip(k);
        assert forall|i: int| 0 <= i < high.len() implies !p(#[trigger] high[i]) by {
            if i > 0 {
                assert(amount_leq()(s[k], s[k + i]));
            }
        }
        lemma_filter_none(high, p);
        assert(s =~= low + high);
        Seq::filter_distributes_over_add(low, high, p);
        low.lemma_filter_len(p);
        assert(false);
    }
}

/// A mint the check accepts is backed: the latest round is fresh and the supply after
/// the mint does not exceed the attested reserve. (Where supply plus mint overflows
/// 128 bits the check compares the largest amount instead, so against a reserve of
/// exactly that amount it accepts; those inputs are left out.)
pub proof fn law_accepted_mint_is_backed(
    config: Config,
    latest: Option<RoundData>,
    now: u64,
    mint_amount: u128,
    circulating_supply: u128,
)
    requires
        mint_covered(config, latest, now, mint_amount, circulating_supply),
        !(latest->0.reserve_amount == u128::MAX && circulating_supply + mint_amount
            > u128::MAX),
    ensures
        latest is Some,
        !config.paused,
        saturating_sub_u64(now, latest->0.updated_at) <= config.staleness_threshold_secs,
        circulating_supply + mint_amount <= latest->0.reserve_amount,
{
}

/// The ids of the last `MAX_HISTORY` rounds up to round `n`.
pub open spec fn history_window(n: u64) -> Set<u64> {
    Set::new(|id: u64| 0 < id <= n && n < id + MAX_HISTORY)
}

/// The history ids after round `id` is archived and the round it evicts is dropped.
pub open spec fn archived(history: Set<u64>, id: u64) -> Set<u64> {
    match evicted_round(id) {
        Some(e) => history.insert(id).remove(e),
        None => history.insert(id),
    }
}

/// Finalising rounds, by submission or by the admin's override, keeps the history at the
/// last `MAX_HISTORY` rounds:
/// when it holds exactly the window up to round `n`, archiving round `n + 1` and
/// dropping the round it evicts leaves exactly the window up to round `n + 1`.
pub proof fn law_history_keeps_last_rounds(history: Set<u64>, n: u64)
    requires
        history == history_window(n),
        n < u64::MAX,
    ensures
        archived(history, (n + 1) as u64) == history_window((n + 1) as u64),
{
    assert(archived(history, (n + 1) as u64) =~= history_window((n + 1) as u64));
}

/// The mint check accepts every covered mint: when the aggregator runs, the latest round
/// is no older than the threshold (a round stamped in the future counts as fresh) and
/// supply plus mint stays within the attested reserve, the mint is accepted.
pub proof fn law_backed_mint_is_accepted(
    config: Config,
    latest: Option<RoundData>,
    now: u64,
    mint_amount: u128,
    circulating_supply: u128,
)
    requires
        !config.paused,
        latest is Some,
        now <= latest->0.updated_at || now - latest->0.updated_at <= config.staleness_threshold_secs,
        circulating_supply + mint_amount <= latest->0.reserve_amount,
    ensures
        mint_covered(config, latest, now, mint_amount, circulating_supply),
{
}

/// The arithmetic of the mint check: the proposed supply is supply plus mint, capped at
/// the largest amount; differences stop at zero instead of going negative.
pub proof fn law_mint_check_arithmetic(a: u128, b: u128, x: u64, y: u64)
    ensures
        a + b <= u128::MAX ==> proposed_total(a, b) == a + b,
        a + b > u128::MAX ==> proposed_total(a, b) == u128::MAX,
        a >= b ==> saturating_sub_u128(a, b) == a - b,
        a < b ==> saturating_sub_u128(a, b) == 0,
        x >= y ==> saturating_sub_u64(x, y) == x - y,
        x < y ==> saturating_sub_u64(x, y) == 0,
{
}

/// A round is decided over every pending submission and the new one, each counted once:
/// the values are the pending values in order followed by the new amount.
pub proof fn law_round_counts_every_submission(pending: Seq<OracleSubmission>, amount: u128)
    ensures
        submitted_values(pending, amount).len() == pending.len() + 1,
        submitted_values(pending, amount).last() == amount,
        forall|i: int|
            0 <= i < pending.len() ==> #[trigger] submitted_values(pending, amount)[i]
                == pending[i].value,
{
}

/// A history query returns 20 rounds unless another limit is asked for; archiving a
/// round drops the one exactly `MAX_HISTORY` rounds back, and nothing while fewer rounds
/// exist.
pub proof fn law_history_limits(limit: Option<u32>, id: u64)
    ensures
        limit is None ==> history_limit(limit) == 20,
        limit is Some ==> history_limit(limit) == limit->0,
        id > MAX_HISTORY ==> evicted_round(id) == Some((id - MAX_HISTORY) as u64),
        id <= MAX_HISTORY ==> evicted_round(id) is None,
{
}

} // verus!

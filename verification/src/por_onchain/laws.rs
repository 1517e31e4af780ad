//! Properties of the reserve snapshot.
use super::contract::{is_active, sum};
use super::state::ReserveSource;
use vstd::prelude::*;

verus! {

/// The sources a snapshot or a total-reserve query reads are exactly the active ones: a
/// source is kept precisely when its active flag is set, whatever its last balance, so a
/// source deactivated by `remove_source` is never queried or summed; the active sources
/// keep their order.
pub proof fn law_only_active_sources_count(sources: Seq<ReserveSource>)
    ensures
        forall|s: ReserveSource| #[trigger] is_active()(s) <==> s.active,
        forall|i: int|
            0 <= i < sources.filter(is_active()).len() ==> (#[trigger] sources.filter(
                is_active(),
            )[i]).active,
        forall|i: int|
            0 <= i < sources.len() && (#[trigger] sources[i]).active ==> sources.filter(
                is_active(),
            ).contains(sources[i]),
        forall|i: int|
            0 <= i < sources.len() && !(#[trigger] sources[i]).active ==> !sources.filter(
                is_active(),
            ).contains(sources[i]),
{
    let f = sources.filter(is_active());
    assert forall|i: int| 0 <= i < f.len() implies (#[trigger] f[i]).active by {
        sources.lemma_filter_pred(is_active(), i);
    }
    assert forall|i: int| 0 <= i < sources.len() && (#[trigger] sources[i]).active implies f.contains(
        sources[i],
    ) by {
        sources.lemma_filter_contains(is_active(), i);
    }
    assert forall|i: int| 0 <= i < sources.len() && !(#[trigger] sources[i]).active implies !f.contains(
        sources[i],
    ) by {
        if f.contains(sources[i]) {
            let j = choose|j: int| 0 <= j < f.len() && f[j] == sources[i];
            sources.lemma_filter_pred(is_active(), j);
        }
    }
}

/// The reported total adds up the balances: nothing for no source, and one more source
/// adds exactly its balance; so no balance is counted twice or left out.
pub proof fn law_total_adds_balances(balances: Seq<u128>, b: u128)
    ensures
        sum(Seq::<u128>::empty()) == 0,
        sum(balances.push(b)) == sum(balances) + b,
{
    assert(balances.push(b).drop_last() =~= balances);
}

} // verus!

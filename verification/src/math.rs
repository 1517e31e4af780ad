//! Arithmetic and ordering helpers built on the standard library and `cosmwasm_std`.
use vstd::prelude::*;
use vstd::relations::{sorted_by, total_ordering};

verus! {

/// The numeric order on amounts, as a relation.
pub open spec fn amount_leq() -> spec_fn(u128, u128) -> bool {
    |a: u128, b: u128| a <= b
}

/// The amounts of `vals` in ascending order.
pub open spec fn sorted_amounts(vals: Seq<u128>) -> Seq<u128> {
    vals.sort_by(amount_leq())
}

pub proof fn lemma_amount_leq_total()
    ensures
        total_ordering(amount_leq()),
{
    let leq = amount_leq();
    assert(vstd::relations::reflexive(leq));
    assert(vstd::relations::antisymmetric(leq));
    assert(vstd::relations::transitive(leq));
    assert(vstd::relations::strongly_connected(leq));
}

/// Sorting arranges the amounts in ascending numeric order and keeps every amount as
/// often as it occurs: the result is an ascending permutation of the input.
pub proof fn law_sorted_amounts(vals: Seq<u128>)
    ensures
        forall|a: u128, b: u128| #[trigger] amount_leq()(a, b) <==> a <= b,
        sorted_amounts(vals).len() == vals.len(),
        sorted_amounts(vals).to_multiset() == vals.to_multiset(),
        forall|i: int, j: int|
            0 <= i <= j < vals.len() ==> #[trigger] sorted_amounts(vals)[i]
                <= #[trigger] sorted_amounts(vals)[j],
{
    broadcast use vstd::seq_lib::group_to_multiset_ensures;

    lemma_amount_leq_total();
    vals.lemma_sort_by_ensures(amount_leq());
    let s = sorted_amounts(vals);
    assert(s.to_multiset().len() == vals.to_multiset().len());
    assert forall|i: int, j: int| 0 <= i <= j < vals.len() implies #[trigger] s[i] <= #[trigger] s[j] by {
        if i < j {
            assert(amount_leq()(s[i], s[j]));
        }
    }
}

/// Sorts amounts in ascending order with the standard library's `slice::sort`;
/// its documentation promises a sorted permutation of the input.
#[verifier::external_body]
fn sort_slice(v: &mut Vec<u128>)
    ensures
        sorted_by(final(v)@, amount_leq()),
        final(v)@.to_multiset() == old(v)@.to_multiset(),
{
    v.sort();
}

/// Sorts `v` ascending; the result is exactly the sorted sequence of the input.
pub fn sort_amounts(v: &mut Vec<u128>)
    ensures
        final(v)@ == sorted_amounts(old(v)@),
        final(v)@.len() == old(v)@.len(),
{
    let ghost before = v@;
    sort_slice(v);
    proof {
        lemma_amount_leq_total();
        before.lemma_sort_by_ensures(amount_leq());
        vstd::seq_lib::lemma_sorted_unique(v@, before.sort_by(amount_leq()), amount_leq());
        broadcast use vstd::seq_lib::group_to_multiset_ensures;
        assert(v@.to_multiset().len() == before.to_multiset().len());
    }
}

/// `amount * numerator / denominator`, rounded down, through `Uint128::multiply_ratio`
/// of `cosmwasm_std`, which computes the product in 256 bits and panics when the
/// denominator is zero or the quotient does not fit in 128 bits (excluded here).
#[verifier::external_body]
pub(crate) fn multiply_ratio(amount: u128, numerator: u64, denominator: u128) -> (r: u128)
    requires
        denominator > 0,
        amount * numerator / (denominator as int) <= u128::MAX,
    ensures
        r == amount * numerator / (denominator as int),
{
    cosmwasm_std::Uint128::new(amount).multiply_ratio(numerator, denominator).u128()
}

} // verus!

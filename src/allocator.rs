use vstd::prelude::*;
use vstd::arithmetic::div_mod::lemma_fundamental_div_mod;

use crate::asset::Asset;
use crate::error::MintError;

verus! {

/// The sum of the target weights of a basket.
pub open spec fn weight_sum(t: Seq<Asset>) -> int
    decreases t.len(),
{
    if t.len() == 0 {
        0
    } else {
        weight_sum(t.drop_last()) + t.last().amount
    }
}

/// The share of a deposit `u` that a component of weight `w` receives out of
/// a total weight `total`: truncating integer division.
pub open spec fn share(u: int, w: int, total: int) -> int {
    u * w / total
}

/// Whether `u * w` fits in 128 bits for every weight `w` of the basket.
pub open spec fn products_fit(u: int, t: Seq<Asset>) -> bool {
    forall|i: int| 0 <= i < t.len() ==> u * #[trigger] t[i].amount <= u128::MAX
}

/// The sum of the shares of all components.
pub open spec fn share_sum(u: int, t: Seq<Asset>, total: int) -> int
    decreases t.len(),
{
    if t.len() == 0 {
        0
    } else {
        share_sum(u, t.drop_last(), total) + share(u, t.last().amount as int, total)
    }
}

/// The sum of the truncation remainders `(u * w) % total` of all components.
pub open spec fn remainder_sum(u: int, t: Seq<Asset>, total: int) -> int
    decreases t.len(),
{
    if t.len() == 0 {
        0
    } else {
        remainder_sum(u, t.drop_last(), total) + (u * t.last().amount) % total
    }
}

/// Every weight, and the weight of every prefix, is at most the total weight.
pub proof fn lemma_weight_bounds(t: Seq<Asset>, i: int)
    requires
        0 <= i <= t.len(),
    ensures
        weight_sum(t.take(i)) <= weight_sum(t),
        i < t.len() ==> t[i].amount <= weight_sum(t),
        weight_sum(t) >= 0,
    decreases t.len(),
{
    if t.len() > 0 {
        let k = if i == t.len() {
            i - 1
        } else {
            i
        };
        lemma_weight_bounds(t.drop_last(), k);
        assert(t.drop_last().take(k) =~= t.take(k));
        if i == t.len() {
            assert(t.take(i) =~= t);
        } else if i < t.len() - 1 {
            assert(t.drop_last()[i] == t[i]);
        }
    }
}

proof fn lemma_weight_prefix_step(t: Seq<Asset>, i: int)
    requires
        0 <= i < t.len(),
    ensures
        weight_sum(t.take(i + 1)) == weight_sum(t.take(i)) + t[i].amount,
{
    assert(t.take(i + 1).drop_last() =~= t.take(i));
}

proof fn lemma_share_decomposition(u: int, t: Seq<Asset>, total: int)
    requires
        total > 0,
        u >= 0,
    ensures
        total * share_sum(u, t, total) + remainder_sum(u, t, total) == u * weight_sum(t),
        share_sum(u, t, total) >= 0,
        remainder_sum(u, t, total) >= 0,
    decreases t.len(),
{
    if t.len() > 0 {
        let init = t.drop_last();
        let w = t.last().amount as int;
        lemma_share_decomposition(u, init, total);
        lemma_fundamental_div_mod(u * w, total);
        let s0 = share_sum(u, init, total);
        let q = u * w / total;
        assert(u * w >= 0) by (nonlinear_arith)
            requires
                u >= 0,
                w >= 0,
        ;
        assert(q >= 0) by (nonlinear_arith)
            requires
                u * w >= 0,
                total > 0,
                q == u * w / total,
        ;
        assert(total * (s0 + q) == total * s0 + total * q) by (nonlinear_arith);
        assert(u * (weight_sum(init) + w) == u * weight_sum(init) + u * w) by (nonlinear_arith);
    }
}

/// Allocation loses only dust: the shares of a deposit `u` sum to at most
/// `u`, and the shortfall, scaled by the total weight, is exactly the sum of
/// the truncation remainders of the components.
pub proof fn lemma_allocation_dust(u: u128, t: Seq<Asset>)
    requires
        weight_sum(t) > 0,
    ensures
        share_sum(u as int, t, weight_sum(t)) <= u,
        weight_sum(t) * (u - share_sum(u as int, t, weight_sum(t))) == remainder_sum(
            u as int,
            t,
            weight_sum(t),
        ),
{
    let total = weight_sum(t);
    let s = share_sum(u as int, t, total);
    let rem = remainder_sum(u as int, t, total);
    lemma_share_decomposition(u as int, t, total);
    assert(total * (u - s) == u * total - total * s) by (nonlinear_arith);
    assert(u * total == total * u) by (nonlinear_arith);
    assert(s <= u) by (nonlinear_arith)
        requires
            total * s + rem == total * u,
            rem >= 0,
            total > 0,
    ;
}

/// The total target weight of a basket, or `Overflow` when it does not fit
/// in 128 bits.
pub fn total_target_weight(targets: &Vec<Asset>) -> (r: Result<u128, MintError>)
    ensures
        match r {
            Ok(w) => w == weight_sum(targets@),
            Err(e) => e == MintError::Overflow && weight_sum(targets@) > u128::MAX,
        },
{
    let mut sum: u128 = 0;
    let mut i: usize = 0;
    while i < targets.len()
        invariant
            0 <= i <= targets.len(),
            sum == weight_sum(targets@.take(i as int)),
        decreases targets.len() - i,
    {
        proof {
            lemma_weight_prefix_step(targets@, i as int);
        }
        match sum.checked_add(targets[i].amount) {
            Some(s) => {
                sum = s;
            },
            None => {
                proof {
                    lemma_weight_bounds(targets@, i as int + 1);
                }
                return Err(MintError::Overflow);
            },
        }
        i = i + 1;
    }
    assert(targets@.take(i as int) =~= targets@);
    Ok(sum)
}

/// Splits a deposit of `ust_amount` over the basket's target weights: the
/// component of weight `w` receives `ust_amount * w / W` (truncated), where
/// `W` is the total weight.
pub fn allocate(ust_amount: u128, targets: &Vec<Asset>) -> (r: Result<Vec<u128>, MintError>)
    ensures
        r is Ok <==> 0 < weight_sum(targets@) <= u128::MAX && products_fit(
            ust_amount as int,
            targets@,
        ),
        r == Err::<Vec<u128>, MintError>(MintError::ZeroTotalWeight) <==> weight_sum(targets@)
            == 0,
        r == Err::<Vec<u128>, MintError>(MintError::Overflow) <==> (weight_sum(targets@)
            > u128::MAX || !products_fit(ust_amount as int, targets@)),
        match r {
            Ok(v) => v@.len() == targets@.len() && forall|i: int|
                0 <= i < v@.len() ==> #[trigger] v@[i] == share(
                    ust_amount as int,
                    targets@[i].amount as int,
                    weight_sum(targets@),
                ),
            Err(e) => e == MintError::ZeroTotalWeight || e == MintError::Overflow,
        },
{
    let total = match total_target_weight(targets) {
        Ok(w) => w,
        Err(e) => {
            return Err(e);
        },
    };
    if total == 0 {
        proof {
            assert forall|i: int| 0 <= i < targets@.len() implies ust_amount as int
                * #[trigger] targets@[i].amount <= u128::MAX by {
                lemma_weight_bounds(targets@, i);
                assert(targets@[i].amount == 0);
            }
        }
        return Err(MintError::ZeroTotalWeight);
    }
    let mut out: Vec<u128> = Vec::new();
    let mut i: usize = 0;
    while i < targets.len()
        invariant
            0 <= i <= targets.len(),
            total == weight_sum(targets@),
            total > 0,
            out@.len() == i,
            forall|j: int| 0 <= j < i ==> ust_amount as int * #[trigger] targets@[j].amount <= u128::MAX,
            forall|j: int|
                0 <= j < i ==> #[trigger] out@[j] == share(
                    ust_amount as int,
                    targets@[j].amount as int,
                    total as int,
                ),
        decreases targets.len() - i,
    {
        match ust_amount.checked_mul(targets[i].amount) {
            Some(p) => {
                out.push(p / total);
            },
            None => {
                return Err(MintError::Overflow);
            },
        }
        i = i + 1;
    }
    Ok(out)
}

} // verus!

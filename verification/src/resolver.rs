//! Model resolver: replaces an `Auto` model request with a concrete model,
//! weighting access to stronger models by how much of the credit budget is
//! left. A concrete request is echoed unchanged.

use vstd::prelude::*;

use crate::moderate::{model_cost, ModerationModel};

verus! {

/// The distinct concrete models of an allowed set, strongest (most expensive
/// per byte) first. The allowed list is read as a set: duplicates and `Auto`
/// entries carry no weight.
pub open spec fn sorted_allowed(allowed: Seq<ModerationModel>) -> Seq<ModerationModel> {
    (if allowed.contains(ModerationModel::Arbiter) {
        seq![ModerationModel::Arbiter]
    } else {
        Seq::<ModerationModel>::empty()
    }) + (if allowed.contains(ModerationModel::Sentinel) {
        seq![ModerationModel::Sentinel]
    } else {
        Seq::<ModerationModel>::empty()
    }) + (if allowed.contains(ModerationModel::Observer) {
        seq![ModerationModel::Observer]
    } else {
        Seq::<ModerationModel>::empty()
    })
}

/// The triangular number `1 + 2 + ... + n`: the total weight of `n` ranked
/// models.
pub open spec fn triangle_weight(n: int) -> int {
    n * (n + 1) / 2
}

/// The credit threshold that rank `i` of `n` (strongest first) must beat:
/// the share of the cap reserved for the cheaper ranks below it, under
/// weights `1, 2, ..., n` from the strongest rank down to the cheapest. The
/// strongest rank must beat the whole share of the others; the cheapest
/// rank's threshold is zero. A cap of zero or less makes every threshold
/// zero. Integer division throughout, so the boundaries are exact.
pub open spec fn rank_threshold(n: int, i: int, max_credits: int) -> int {
    if max_credits > 0 {
        (triangle_weight(n) - triangle_weight(i + 1)) * max_credits / triangle_weight(n)
    } else {
        0
    }
}

/// Walks ranks `i, i+1, ...` of the sorted model list and returns the first
/// rank whose threshold the remaining credits beat; if none qualifies, the
/// last (cheapest) model. Thresholds shrink toward the cheap end, so spend
/// degrades gracefully from the strongest model to the cheapest as the
/// budget is consumed.
pub open spec fn pick_by_budget(
    models: Seq<ModerationModel>,
    i: int,
    remaining: int,
    max_credits: int,
) -> ModerationModel
    recommends
        0 <= i < models.len(),
    decreases models.len() - i,
{
    if i >= models.len() - 1 {
        models[models.len() - 1]
    } else if remaining > rank_threshold(models.len() as int, i, max_credits) {
        models[i]
    } else {
        pick_by_budget(models, i + 1, remaining, max_credits)
    }
}

/// What `resolve` returns: a concrete request unchanged; an `Auto` request
/// resolved over the allowed set by the weighted-tier walk, with `Observer`
/// as the safe fallback when the allowed set holds no concrete model.
pub open spec fn resolve_spec(
    request: ModerationModel,
    remaining: int,
    max_credits: int,
    allowed: Seq<ModerationModel>,
) -> ModerationModel {
    if !(request is Auto) {
        request
    } else {
        let models = sorted_allowed(allowed);
        if models.len() == 0 {
            ModerationModel::Observer
        } else {
            pick_by_budget(models, 0, remaining, max_credits)
        }
    }
}

/// Costs never increase along the list.
pub open spec fn costs_descending(models: Seq<ModerationModel>) -> bool {
    forall|j: int, k: int|
        0 <= j <= k < models.len() ==> model_cost(#[trigger] models[j]) >= model_cost(
            #[trigger] models[k],
        )
}

/// No entry is `Auto`.
pub open spec fn all_concrete(models: Seq<ModerationModel>) -> bool {
    forall|j: int| 0 <= j < models.len() ==> !(#[trigger] models[j] is Auto)
}

/// The sorted allowed list is short, descending in cost, and concrete.
proof fn lemma_sorted_allowed_shape(allowed: Seq<ModerationModel>)
    ensures
        sorted_allowed(allowed).len() <= 3,
        costs_descending(sorted_allowed(allowed)),
        all_concrete(sorted_allowed(allowed)),
{
}

/// The budget walk always answers with a model at some rank at or after the
/// rank it starts from.
proof fn lemma_pick_in_suffix(
    models: Seq<ModerationModel>,
    i: int,
    remaining: int,
    max_credits: int,
)
    requires
        0 <= i < models.len(),
    ensures
        exists|j: int|
            i <= j < models.len() && pick_by_budget(models, i, remaining, max_credits)
                == #[trigger] models[j],
    decreases models.len() - i,
{
    if i >= models.len() - 1 {
        assert(pick_by_budget(models, i, remaining, max_credits) == models[models.len() - 1]);
    } else if remaining > rank_threshold(models.len() as int, i, max_credits) {
        assert(pick_by_budget(models, i, remaining, max_credits) == models[i]);
    } else {
        lemma_pick_in_suffix(models, i + 1, remaining, max_credits);
    }
}

/// Down the budget walk, more remaining credits can only buy a model at an
/// earlier (more expensive) rank.
proof fn lemma_pick_monotone(
    models: Seq<ModerationModel>,
    i: int,
    r1: int,
    r2: int,
    max_credits: int,
)
    requires
        0 <= i < models.len(),
        costs_descending(models),
        r1 <= r2,
    ensures
        model_cost(pick_by_budget(models, i, r1, max_credits)) <= model_cost(
            pick_by_budget(models, i, r2, max_credits),
        ),
    decreases models.len() - i,
{
    if i >= models.len() - 1 {
    } else {
        let threshold = rank_threshold(models.len() as int, i, max_credits);
        if r1 > threshold {
        } else if r2 > threshold {
            lemma_pick_in_suffix(models, i + 1, r1, max_credits);
            let j = choose|j: int|
                i + 1 <= j < models.len() && pick_by_budget(models, i + 1, r1, max_credits)
                    == #[trigger] models[j];
            assert(model_cost(models[j]) <= model_cost(models[i]));
        } else {
            lemma_pick_monotone(models, i + 1, r1, r2, max_credits);
        }
    }
}

/// Law: for a fixed request, allowed set, and cap, the cost of the resolved
/// model never decreases as the remaining credits grow. A concrete request
/// resolves to itself regardless of credits; an `Auto` request walks the
/// budget thresholds, which only ever open stronger ranks as the balance
/// rises.
pub proof fn lemma_resolve_monotonic(
    request: ModerationModel,
    allowed: Seq<ModerationModel>,
    max_credits: int,
    r1: int,
    r2: int,
)
    requires
        r1 <= r2,
    ensures
        model_cost(resolve_spec(request, r1, max_credits, allowed)) <= model_cost(
            resolve_spec(request, r2, max_credits, allowed),
        ),
{
    let models = sorted_allowed(allowed);
    if request is Auto && models.len() > 0 {
        lemma_sorted_allowed_shape(allowed);
        lemma_pick_monotone(models, 0, r1, r2, max_credits);
    }
}

/// Whether a model list contains the given model.
pub fn models_contain(v: &Vec<ModerationModel>, m: ModerationModel) -> (r: bool)
    ensures
        r == v@.contains(m),
{
    let mut i: usize = 0;
    while i < v.len()
        invariant
            i <= v@.len(),
            forall|j: int| 0 <= j < i ==> v@[j] != m,
        decreases v@.len() - i,
    {
        if v[i] == m {
            return true;
        }
        i = i + 1;
    }
    false
}

/// Resolves a model request to a concrete model. A concrete request is
/// echoed unchanged; an `Auto` request is resolved against the remaining
/// credits, the monthly cap, and the allowed set, strongest affordable model
/// first. The result is never `Auto`.
pub fn resolve(
    request: ModerationModel,
    remaining_credits: i64,
    max_credits: i64,
    allowed_models: &Vec<ModerationModel>,
) -> (m: ModerationModel)
    ensures
        m == resolve_spec(
            request,
            remaining_credits as int,
            max_credits as int,
            allowed_models@,
        ),
        !(request is Auto) ==> m == request,
        request is Auto ==> !(m is Auto),
{
    if !matches!(request, ModerationModel::Auto) {
        return request;
    }
    let mut models: Vec<ModerationModel> = Vec::new();
    if models_contain(allowed_models, ModerationModel::Arbiter) {
        models.push(ModerationModel::Arbiter);
    }
    if models_contain(allowed_models, ModerationModel::Sentinel) {
        models.push(ModerationModel::Sentinel);
    }
    if models_contain(allowed_models, ModerationModel::Observer) {
        models.push(ModerationModel::Observer);
    }
    proof {
        assert(models@ =~= sorted_allowed(allowed_models@));
        lemma_sorted_allowed_shape(allowed_models@);
    }
    let n: usize = models.len();
    if n == 0 {
        return ModerationModel::Observer;
    }
    proof {
        lemma_triangle_small();
    }
    let total: i64 = if n == 1 {
        1
    } else if n == 2 {
        3
    } else {
        6
    };
    let ghost rem: int = remaining_credits as int;
    let ghost cap: int = max_credits as int;
    // The share of the total weight reserved for the ranks cheaper than the
    // one under consideration; the strongest rank must beat all of it.
    let mut cumulative: i64 = total - 1;
    let mut i: usize = 0;
    while i + 1 < n
        invariant
            request is Auto,
            models@ == sorted_allowed(allowed_models@),
            all_concrete(models@),
            n == models@.len(),
            1 <= n <= 3,
            i < n,
            total == triangle_weight(n as int),
            0 <= cumulative <= total,
            cumulative == triangle_weight(n as int) - triangle_weight(i + 1),
            rem == remaining_credits as int,
            cap == max_credits as int,
            pick_by_budget(models@, 0, rem, cap) == pick_by_budget(models@, i as int, rem, cap),
        decreases n - i,
    {
        proof {
            lemma_triangle_small();
        }
        let qualifies: bool = if max_credits > 0 {
            let cu: u128 = cumulative as u128;
            let mu: u128 = max_credits as u128;
            proof {
                assert(cu * mu <= 6 * 0x8000_0000_0000_0000u128) by (nonlinear_arith)
                    requires
                        cu <= 6,
                        mu < 0x8000_0000_0000_0000u128,
                ;
            }
            let threshold: u128 = cu * mu / (total as u128);
            proof {
                lemma_threshold_bounded(cumulative as int, cap, total as int);
            }
            remaining_credits > 0 && (remaining_credits as u128) > threshold
        } else {
            remaining_credits > 0
        };
        proof {
            assert(qualifies == (rem > rank_threshold(n as int, i as int, cap)));
        }
        if qualifies {
            return models[i];
        }
        cumulative = cumulative - (i + 2) as i64;
        i = i + 1;
    }
    models[n - 1]
}

/// The triangular weights that a list of at most three models can produce.
proof fn lemma_triangle_small()
    ensures
        triangle_weight(0) == 0,
        triangle_weight(1) == 1,
        triangle_weight(2) == 3,
        triangle_weight(3) == 6,
{
}

/// A rank threshold is between zero and the cap.
proof fn lemma_threshold_bounded(cumulative: int, max_credits: int, total_weight: int)
    requires
        0 <= cumulative <= total_weight,
        0 < total_weight,
        0 < max_credits,
    ensures
        0 <= cumulative * max_credits / total_weight <= max_credits,
{
    assert(0 <= cumulative * max_credits) by (nonlinear_arith)
        requires
            0 <= cumulative,
            0 < max_credits,
    ;
    assert(cumulative * max_credits <= total_weight * max_credits) by (nonlinear_arith)
        requires
            cumulative <= total_weight,
            0 < max_credits,
    ;
    assert(0 <= cumulative * max_credits / total_weight) by (nonlinear_arith)
        requires
            0 <= cumulative * max_credits,
            0 < total_weight,
    ;
    assert(cumulative * max_credits / total_weight <= total_weight * max_credits / total_weight)
        by (nonlinear_arith)
        requires
            cumulative * max_credits <= total_weight * max_credits,
            0 < total_weight,
    ;
    assert(total_weight * max_credits / total_weight == max_credits) by (nonlinear_arith)
        requires
            0 < total_weight,
    ;
}

} // verus!

//! Sums over milestone schedules: the total of all amounts and the total
//! of the released amounts, with the lemmas the transitions rely on.

use vstd::prelude::*;
use crate::escrow::MilestoneStatus;
use crate::escrow::MilestoneView;

verus! {

/// The contribution of one milestone to the released total.
pub open spec fn released_amount(m: MilestoneView) -> int {
    if m.status is Released {
        m.amount as int
    } else {
        0
    }
}

/// Sum of the amounts of all milestones in the schedule.
pub open spec fn sum_amounts(ms: Seq<MilestoneView>) -> int
    decreases ms.len(),
{
    if ms.len() == 0 {
        0
    } else {
        sum_amounts(ms.drop_last()) + ms.last().amount
    }
}

/// Sum of the amounts of the released milestones in the schedule.
pub open spec fn sum_released(ms: Seq<MilestoneView>) -> int
    decreases ms.len(),
{
    if ms.len() == 0 {
        0
    } else {
        sum_released(ms.drop_last()) + released_amount(ms.last())
    }
}

/// When every amount is positive, the released total lies between zero and
/// the overall total.
pub proof fn lemma_sum_released_bounds(ms: Seq<MilestoneView>)
    requires
        forall|i: int| 0 <= i < ms.len() ==> (#[trigger] ms[i]).amount > 0,
    ensures
        0 <= sum_released(ms) <= sum_amounts(ms),
    decreases ms.len(),
{
    if ms.len() > 0 {
        assert forall|i: int| 0 <= i < ms.drop_last().len() implies (#[trigger] ms.drop_last()[i]).amount
            > 0 by {
            assert(ms.drop_last()[i] == ms[i]);
        }
        lemma_sum_released_bounds(ms.drop_last());
        assert(ms.last().amount > 0);
    }
}

/// Replacing the milestone at one index changes each sum by the difference
/// at that index alone.
pub proof fn lemma_sums_after_update(ms: Seq<MilestoneView>, i: int, m: MilestoneView)
    requires
        0 <= i < ms.len(),
    ensures
        sum_amounts(ms.update(i, m)) == sum_amounts(ms) - ms[i].amount + m.amount,
        sum_released(ms.update(i, m)) == sum_released(ms) - released_amount(ms[i])
            + released_amount(m),
    decreases ms.len(),
{
    let ms2 = ms.update(i, m);
    if i == ms.len() - 1 {
        assert(ms2.drop_last() =~= ms.drop_last());
        assert(ms2.last() == m);
    } else {
        lemma_sums_after_update(ms.drop_last(), i, m);
        assert(ms2.drop_last() =~= ms.drop_last().update(i, m));
        assert(ms2.last() == ms.last());
    }
}

/// Two schedules whose milestones agree pointwise in amount contribute the
/// same overall total.
pub proof fn lemma_sum_amounts_pointwise(ms1: Seq<MilestoneView>, ms2: Seq<MilestoneView>)
    requires
        ms1.len() == ms2.len(),
        forall|i: int| 0 <= i < ms1.len() ==> (#[trigger] ms2[i]).amount == ms1[i].amount,
    ensures
        sum_amounts(ms2) == sum_amounts(ms1),
    decreases ms1.len(),
{
    if ms1.len() > 0 {
        assert forall|i: int| 0 <= i < ms1.drop_last().len() implies (#[trigger] ms2.drop_last()[i]).amount
            == ms1.drop_last()[i].amount by {
            assert(ms2.drop_last()[i] == ms2[i]);
            assert(ms1.drop_last()[i] == ms1[i]);
        }
        lemma_sum_amounts_pointwise(ms1.drop_last(), ms2.drop_last());
        assert(ms2.last().amount == ms1.last().amount);
    }
}

/// Two schedules whose milestones agree pointwise in released contribution
/// have the same released total.
pub proof fn lemma_sum_released_pointwise(ms1: Seq<MilestoneView>, ms2: Seq<MilestoneView>)
    requires
        ms1.len() == ms2.len(),
        forall|i: int| 0 <= i < ms1.len() ==> released_amount(#[trigger] ms2[i]) == released_amount(
            ms1[i],
        ),
    ensures
        sum_released(ms2) == sum_released(ms1),
    decreases ms1.len(),
{
    if ms1.len() > 0 {
        assert forall|i: int| 0 <= i < ms1.drop_last().len() implies released_amount(
            #[trigger] ms2.drop_last()[i],
        ) == released_amount(ms1.drop_last()[i]) by {
            assert(ms2.drop_last()[i] == ms2[i]);
            assert(ms1.drop_last()[i] == ms1[i]);
        }
        lemma_sum_released_pointwise(ms1.drop_last(), ms2.drop_last());
        assert(released_amount(ms2.last()) == released_amount(ms1.last()));
    }
}

/// In a schedule where every milestone is released, the released total is
/// the overall total.
pub proof fn lemma_sum_released_when_all_released(ms: Seq<MilestoneView>)
    requires
        forall|i: int| 0 <= i < ms.len() ==> (#[trigger] ms[i]).status is Released,
    ensures
        sum_released(ms) == sum_amounts(ms),
    decreases ms.len(),
{
    if ms.len() > 0 {
        assert forall|i: int| 0 <= i < ms.drop_last().len() implies (#[trigger] ms.drop_last()[i]).status
            is Released by {
            assert(ms.drop_last()[i] == ms[i]);
        }
        lemma_sum_released_when_all_released(ms.drop_last());
        assert(ms.last().status is Released);
    }
}

/// In a schedule where no milestone is released, the released total is zero.
pub proof fn lemma_sum_released_when_none_released(ms: Seq<MilestoneView>)
    requires
        forall|i: int| 0 <= i < ms.len() ==> !((#[trigger] ms[i]).status is Released),
    ensures
        sum_released(ms) == 0,
    decreases ms.len(),
{
    if ms.len() > 0 {
        assert forall|i: int| 0 <= i < ms.drop_last().len() implies !((
        #[trigger] ms.drop_last()[i]).status is Released) by {
            assert(ms.drop_last()[i] == ms[i]);
        }
        lemma_sum_released_when_none_released(ms.drop_last());
        assert(!(ms.last().status is Released));
    }
}

/// Taking one more milestone into a prefix adds exactly its amount.
pub proof fn lemma_sum_amounts_extend_prefix(ms: Seq<MilestoneView>, i: int)
    requires
        0 <= i < ms.len(),
    ensures
        sum_amounts(ms.subrange(0, i + 1)) == sum_amounts(ms.subrange(0, i)) + ms[i].amount,
{
    let prefix = ms.subrange(0, i + 1);
    assert(prefix.drop_last() =~= ms.subrange(0, i));
    assert(prefix.last() == ms[i]);
}

/// When every milestone from some point on has a positive amount, the whole
/// sum dominates the sum of the prefix up to that point.
pub proof fn lemma_sum_amounts_ge_prefix(ms: Seq<MilestoneView>, k: int)
    requires
        0 <= k <= ms.len(),
        forall|j: int| k <= j < ms.len() ==> (#[trigger] ms[j]).amount > 0,
    ensures
        sum_amounts(ms) >= sum_amounts(ms.subrange(0, k)),
    decreases ms.len(),
{
    if k == ms.len() {
        assert(ms.subrange(0, k) =~= ms);
    } else {
        assert forall|j: int| k <= j < ms.drop_last().len() implies (#[trigger] ms.drop_last()[j]).amount
            > 0 by {
            assert(ms.drop_last()[j] == ms[j]);
        }
        lemma_sum_amounts_ge_prefix(ms.drop_last(), k);
        assert(ms.drop_last().subrange(0, k) =~= ms.subrange(0, k));
        assert(ms.last() == ms[ms.len() - 1]);
        assert(ms.last().amount > 0);
    }
}

} // verus!

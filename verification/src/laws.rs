//! The laws of the escrow state machine, proved over the transition
//! functions of [`crate::model`]: the bookkeeping invariants hold in every
//! reachable state, terminal escrows never change, a milestone cannot be
//! released twice, and a dispute freezes all further releases.

use vstd::prelude::*;
use crate::escrow::Error;
use crate::escrow::EscrowView;
use crate::model::cancel_transition;
use crate::model::complete_transition;
use crate::model::created_escrow;
use crate::model::create_store;
use crate::model::disputed_milestone;
use crate::model::empty_store;
use crate::model::escrow_wf;
use crate::model::is_terminal;
use crate::model::Op;
use crate::model::pending_milestone;
use crate::model::raise_transition;
use crate::model::release_transition;
use crate::model::released_milestone;
use crate::model::release_store;
use crate::model::raise_store;
use crate::model::resolve_transition;
use crate::model::run;
use crate::model::step;
use crate::model::store_apply;
use crate::model::store_wf;
use crate::model::StoreView;
use crate::model::validate_transition;
use crate::model::EscrowStep;
use crate::sums::lemma_sum_amounts_pointwise;
use crate::sums::lemma_sum_released_bounds;
use crate::sums::lemma_sum_released_pointwise;
use crate::sums::lemma_sum_released_when_all_released;
use crate::sums::lemma_sum_released_when_none_released;
use crate::sums::lemma_sums_after_update;
use crate::sums::released_amount;

verus! {

/// A freshly created escrow satisfies the invariants.
proof fn lemma_created_escrow_wf(
    depositor: u64,
    recipient: u64,
    ms: Seq<crate::escrow::MilestoneView>,
    total_amount: i128,
)
    requires
        validate_transition(ms) == Ok::<i128, Error>(total_amount),
    ensures
        escrow_wf(created_escrow(depositor, recipient, ms, total_amount)),
{
    let e = created_escrow(depositor, recipient, ms, total_amount);
    let init = e.milestones;
    assert(forall|i: int| 0 <= i < ms.len() ==> (#[trigger] ms[i]).amount > 0);
    assert forall|i: int| 0 <= i < init.len() implies (#[trigger] init[i]).amount > 0 by {
        assert(init[i] == pending_milestone(ms[i]));
    }
    assert forall|i: int| 0 <= i < init.len() implies (#[trigger] init[i]).amount == ms[i].amount by {
        assert(init[i] == pending_milestone(ms[i]));
    }
    lemma_sum_amounts_pointwise(ms, init);
    lemma_sum_released_bounds(ms);
    assert forall|i: int| 0 <= i < init.len() implies !((#[trigger] init[i]).status
        is Released) by {
        assert(init[i] == pending_milestone(ms[i]));
    }
    lemma_sum_released_when_none_released(init);
}

/// Releasing a milestone preserves the invariants of the aggregate.
proof fn lemma_release_transition_wf(e: EscrowView, milestone_index: u32, caller: u64)
    requires
        escrow_wf(e),
    ensures
        escrow_wf(release_transition(e, milestone_index, caller).escrow),
{
    let st = release_transition(e, milestone_index, caller);
    if st.result is Ok {
        let i = milestone_index as int;
        let m = e.milestones[i];
        let ms2 = e.milestones.update(i, released_milestone(m));
        lemma_sums_after_update(e.milestones, i, released_milestone(m));
        assert(released_amount(m) == 0);
        assert(released_amount(released_milestone(m)) == m.amount as int);
        assert forall|j: int| 0 <= j < ms2.len() implies (#[trigger] ms2[j]).amount > 0 by {
            if j != i {
                assert(ms2[j] == e.milestones[j]);
            }
        }
        lemma_sum_released_bounds(ms2);
    }
}

/// Raising a dispute preserves the invariants of the aggregate.
proof fn lemma_raise_transition_wf(e: EscrowView, caller: u64)
    requires
        escrow_wf(e),
    ensures
        escrow_wf(raise_transition(e, caller).escrow),
{
    let st = raise_transition(e, caller);
    if st.result is Ok {
        let ms2 = st.escrow.milestones;
        assert forall|j: int| 0 <= j < e.milestones.len() implies (#[trigger] ms2[j]).amount
            == e.milestones[j].amount && released_amount(ms2[j]) == released_amount(
            e.milestones[j],
        ) && ms2[j].amount > 0 by {
            assert(ms2[j] == disputed_milestone(e.milestones[j]));
        }
        lemma_sum_amounts_pointwise(e.milestones, ms2);
        lemma_sum_released_pointwise(e.milestones, ms2);
    }
}

/// Resolving a dispute preserves the invariants of the aggregate.
proof fn lemma_resolve_transition_wf(e: EscrowView, winner: u64)
    requires
        escrow_wf(e),
    ensures
        escrow_wf(resolve_transition(e, winner).escrow),
{
    let st = resolve_transition(e, winner);
    if st.result is Ok {
        let ms2 = st.escrow.milestones;
        if winner == e.recipient {
            assert forall|j: int| 0 <= j < e.milestones.len() implies (#[trigger] ms2[j]).amount
                == e.milestones[j].amount && ms2[j].status is Released && ms2[j].amount > 0 by {
                assert(ms2[j] == released_milestone(e.milestones[j]));
            }
            lemma_sum_amounts_pointwise(e.milestones, ms2);
            lemma_sum_released_when_all_released(ms2);
        } else {
            assert forall|j: int| 0 <= j < e.milestones.len() implies (#[trigger] ms2[j]).amount
                == e.milestones[j].amount && released_amount(ms2[j]) == released_amount(
                e.milestones[j],
            ) && ms2[j].amount > 0 by {
                assert(ms2[j] == disputed_milestone(e.milestones[j]));
            }
            lemma_sum_amounts_pointwise(e.milestones, ms2);
            lemma_sum_released_pointwise(e.milestones, ms2);
        }
    }
}

/// Writing a well-formed aggregate back into a well-formed store keeps the
/// store well-formed.
proof fn lemma_store_apply_wf(s: StoreView, escrow_id: u64, st: EscrowStep)
    requires
        store_wf(s),
        escrow_wf(st.escrow),
    ensures
        store_wf(store_apply(s, escrow_id, st).store),
{
    let s2 = store_apply(s, escrow_id, st).store;
    if st.result is Ok {
        assert forall|id: u64| s2.escrows.contains_key(id) implies escrow_wf(
            #[trigger] s2.escrows[id],
        ) by {
            if id != escrow_id {
                assert(s2.escrows[id] == s.escrows[id]);
            }
        }
    }
}

/// LAW (invariants preserved): one operation, whatever it is and whether
/// it succeeds or fails, takes a well-formed store to a well-formed store.
pub proof fn lemma_step_preserves_wf(s: StoreView, op: Op)
    requires
        store_wf(s),
    ensures
        store_wf(step(s, op).store),
{
    match op {
        Op::Init { .. } => {
            assert(step(s, op).store.escrows == s.escrows);
        },
        Op::Create { escrow_id, depositor, recipient, milestones, caller } => {
            let st = create_store(s, escrow_id, depositor, recipient, milestones, caller);
            if st.result is Ok {
                let total_amount = validate_transition(milestones)->Ok_0;
                lemma_created_escrow_wf(depositor, recipient, milestones, total_amount);
                assert forall|id: u64| st.store.escrows.contains_key(id) implies escrow_wf(
                    #[trigger] st.store.escrows[id],
                ) by {
                    if id != escrow_id {
                        assert(st.store.escrows[id] == s.escrows[id]);
                    }
                }
            }
        },
        Op::Release { escrow_id, milestone_index, caller } => {
            if s.escrows.contains_key(escrow_id) {
                lemma_release_transition_wf(s.escrows[escrow_id], milestone_index, caller);
                lemma_store_apply_wf(
                    s,
                    escrow_id,
                    release_transition(s.escrows[escrow_id], milestone_index, caller),
                );
            }
        },
        Op::Raise { escrow_id, caller } => {
            if s.escrows.contains_key(escrow_id) {
                lemma_raise_transition_wf(s.escrows[escrow_id], caller);
                lemma_store_apply_wf(
                    s,
                    escrow_id,
                    raise_transition(s.escrows[escrow_id], caller),
                );
            }
        },
        Op::Resolve { escrow_id, winner, .. } => {
            if s.escrows.contains_key(escrow_id) {
                lemma_resolve_transition_wf(s.escrows[escrow_id], winner);
                lemma_store_apply_wf(
                    s,
                    escrow_id,
                    resolve_transition(s.escrows[escrow_id], winner),
                );
            }
        },
        Op::Cancel { escrow_id, caller } => {
            if s.escrows.contains_key(escrow_id) {
                lemma_store_apply_wf(
                    s,
                    escrow_id,
                    cancel_transition(s.escrows[escrow_id], caller),
                );
            }
        },
        Op::Complete { escrow_id, caller } => {
            if s.escrows.contains_key(escrow_id) {
                lemma_store_apply_wf(
                    s,
                    escrow_id,
                    complete_transition(s.escrows[escrow_id], caller),
                );
            }
        },
    }
}

/// LAW (invariant of all reachable states): in every store reachable from
/// the empty store by any sequence of operations, every escrow's released
/// total is exactly the sum of its released milestones' amounts and never
/// exceeds its fixed overall total.
pub proof fn lemma_reachable_states_wf(ops: Seq<Op>)
    ensures
        store_wf(run(empty_store(), ops)),
    decreases ops.len(),
{
    if ops.len() > 0 {
        lemma_reachable_states_wf(ops.drop_last());
        lemma_step_preserves_wf(run(empty_store(), ops.drop_last()), ops.last());
    }
}

/// LAW (no resurrection): once an escrow's status is terminal —
/// `Completed`, `Cancelled` or `Resolved` — no operation changes that
/// escrow in any way: not its status, not its milestones, not its
/// released total.
pub proof fn lemma_terminal_escrow_is_sink(s: StoreView, op: Op, id: u64)
    requires
        s.escrows.contains_key(id),
        is_terminal(s.escrows[id].status),
    ensures
        step(s, op).store.escrows.contains_key(id),
        step(s, op).store.escrows[id] == s.escrows[id],
{
}

/// LAW (idempotence boundary): after a successful release of a milestone,
/// releasing the same index again fails with `MilestoneAlreadyReleased`,
/// and the failed call leaves the store exactly as it was.
pub proof fn lemma_release_idempotence_boundary(
    s: StoreView,
    escrow_id: u64,
    milestone_index: u32,
    caller: u64,
)
    requires
        release_store(s, escrow_id, milestone_index, caller).result is Ok,
    ensures
        ({
            let after = release_store(s, escrow_id, milestone_index, caller).store;
            let second = release_store(after, escrow_id, milestone_index, caller);
            second.result == Err::<(), Error>(Error::MilestoneAlreadyReleased) && second.store
                == after
        }),
{
}

/// LAW (dispute freeze): after a dispute has been raised, releasing any
/// milestone fails with `EscrowNotActive`, whatever the prior status of
/// that milestone was, and changes nothing.
pub proof fn lemma_dispute_freezes_releases(
    s: StoreView,
    escrow_id: u64,
    caller: u64,
    milestone_index: u32,
)
    requires
        raise_store(s, escrow_id, caller).result is Ok,
    ensures
        ({
            let after = raise_store(s, escrow_id, caller).store;
            let attempt = release_store(
                after,
                escrow_id,
                milestone_index,
                s.escrows[escrow_id].depositor,
            );
            attempt.result == Err::<(), Error>(Error::EscrowNotActive) && attempt.store == after
        }),
{
}

} // verus!

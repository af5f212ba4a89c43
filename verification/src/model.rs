//! The mathematical model of the escrow state machine: the view of the
//! whole store, one transition function per operation, the well-formedness
//! invariant, and a small operational semantics (`step`, `run`) that the
//! laws quantify over.

use vstd::prelude::*;
use crate::escrow::Error;
use crate::escrow::EscrowStatus;
use crate::escrow::EscrowView;
use crate::escrow::MilestoneStatus;
use crate::escrow::MilestoneView;
use crate::escrow::Resolution;
use crate::sums::sum_amounts;
use crate::sums::sum_released;

verus! {

/// View of the whole store: every escrow by its identifier, and the admin
/// registry singleton.
#[verifier::ext_equal]
pub struct StoreView {
    pub escrows: Map<u64, EscrowView>,
    pub admin: Option<u64>,
}

/// Outcome of one operation on the store: the store afterwards and the
/// operation's result. A failing operation leaves the store unchanged.
#[verifier::ext_equal]
pub struct StoreStep {
    pub store: StoreView,
    pub result: Result<(), Error>,
}

/// Outcome of one operation on a single escrow aggregate.
#[verifier::ext_equal]
pub struct EscrowStep {
    pub escrow: EscrowView,
    pub result: Result<(), Error>,
}

/// The store before any operation: no escrows, no admin.
pub open spec fn empty_store() -> StoreView {
    StoreView { escrows: Map::empty(), admin: Option::None }
}

pub open spec fn escrow_fail(e: EscrowView, err: Error) -> EscrowStep {
    EscrowStep { escrow: e, result: Err(err) }
}

pub open spec fn store_fail(s: StoreView, err: Error) -> StoreStep {
    StoreStep { store: s, result: Err(err) }
}

/// A milestone forced back to `Pending`, as escrow creation does.
pub open spec fn pending_milestone(m: MilestoneView) -> MilestoneView {
    MilestoneView { status: MilestoneStatus::Pending, ..m }
}

/// A milestone frozen by a dispute: a released milestone is final and is
/// left alone, every other milestone becomes `Disputed`.
pub open spec fn disputed_milestone(m: MilestoneView) -> MilestoneView {
    if m.status is Released {
        m
    } else {
        MilestoneView { status: MilestoneStatus::Disputed, ..m }
    }
}

/// A milestone forced to `Released`, as a resolution for the recipient does.
pub open spec fn released_milestone(m: MilestoneView) -> MilestoneView {
    MilestoneView { status: MilestoneStatus::Released, ..m }
}

/// Whether every milestone of the schedule has been released.
pub open spec fn all_released(ms: Seq<MilestoneView>) -> bool {
    forall|i: int| 0 <= i < ms.len() ==> (#[trigger] ms[i]).status is Released
}

/// Whether the status admits no further transition.
pub open spec fn is_terminal(status: EscrowStatus) -> bool {
    status is Completed || status is Cancelled || status is Resolved
}

/// Well-formedness of one escrow aggregate: the invariants that hold after
/// every operation. The released total is exactly the sum of the released
/// milestones' amounts, the overall total is the sum of all amounts, every
/// amount is positive, the schedule has one to twenty milestones, and the
/// released total never exceeds the overall total.
pub open spec fn escrow_wf(e: EscrowView) -> bool {
    &&& 1 <= e.milestones.len() <= 20
    &&& forall|i: int| 0 <= i < e.milestones.len() ==> (#[trigger] e.milestones[i]).amount > 0
    &&& e.total_amount as int == sum_amounts(e.milestones)
    &&& e.total_released as int == sum_released(e.milestones)
    &&& 0 <= e.total_released <= e.total_amount
}

/// Well-formedness of the whole store: every escrow in it is well-formed.
pub open spec fn store_wf(s: StoreView) -> bool {
    forall|id: u64| s.escrows.contains_key(id) ==> escrow_wf(#[trigger] s.escrows[id])
}

/// Validation of a milestone schedule at creation: one to twenty
/// milestones, every amount strictly positive, and a total that fits the
/// integer domain. On success, the validated total.
pub open spec fn validate_transition(ms: Seq<MilestoneView>) -> Result<i128, Error> {
    if ms.len() < 1 || ms.len() > 20 {
        Err(Error::VectorTooLarge)
    } else if exists|i: int| 0 <= i < ms.len() && (#[trigger] ms[i]).amount <= 0 {
        Err(Error::InvalidMilestoneAmount)
    } else if sum_amounts(ms) > i128::MAX {
        Err(Error::InvalidMilestoneAmount)
    } else {
        Ok(sum_amounts(ms) as i128)
    }
}

/// The escrow created from a validated schedule: every milestone starts
/// `Pending`, nothing is released, the escrow is `Active`.
pub open spec fn created_escrow(
    depositor: u64,
    recipient: u64,
    ms: Seq<MilestoneView>,
    total_amount: i128,
) -> EscrowView {
    EscrowView {
        depositor,
        recipient,
        total_amount,
        total_released: 0,
        milestones: Seq::new(ms.len(), |i: int| pending_milestone(ms[i])),
        status: EscrowStatus::Active,
        resolution: Resolution::Unresolved,
    }
}

/// Releasing one milestone of an aggregate: only the depositor may do it,
/// only while the escrow is active, only at an index in bounds, and only
/// once per milestone. The released total grows by the milestone's amount,
/// guarded against overflow.
pub open spec fn release_transition(e: EscrowView, milestone_index: u32, caller: u64) -> EscrowStep {
    if caller != e.depositor {
        escrow_fail(e, Error::UnauthorizedAccess)
    } else if !(e.status is Active) {
        escrow_fail(e, Error::EscrowNotActive)
    } else if milestone_index as int >= e.milestones.len() {
        escrow_fail(e, Error::MilestoneNotFound)
    } else if e.milestones[milestone_index as int].status is Released {
        escrow_fail(e, Error::MilestoneAlreadyReleased)
    } else if e.total_released + e.milestones[milestone_index as int].amount > i128::MAX
        || e.total_released + e.milestones[milestone_index as int].amount < i128::MIN {
        escrow_fail(e, Error::InvalidMilestoneAmount)
    } else {
        let m = e.milestones[milestone_index as int];
        EscrowStep {
            escrow: EscrowView {
                milestones: e.milestones.update(milestone_index as int, released_milestone(m)),
                total_released: (e.total_released + m.amount) as i128,
                ..e
            },
            result: Ok(()),
        }
    }
}

/// Raising a dispute: either party may do it, once, and only on an active
/// escrow. Every milestone not yet released is frozen as `Disputed`.
pub open spec fn raise_transition(e: EscrowView, caller: u64) -> EscrowStep {
    if caller != e.depositor && caller != e.recipient {
        escrow_fail(e, Error::UnauthorizedAccess)
    } else if e.status is Disputed {
        escrow_fail(e, Error::AlreadyInDispute)
    } else if !(e.status is Active) {
        escrow_fail(e, Error::InvalidEscrowStatus)
    } else {
        EscrowStep {
            escrow: EscrowView {
                milestones: Seq::new(e.milestones.len(), |i: int| disputed_milestone(e.milestones[i])),
                status: EscrowStatus::Disputed,
                resolution: Resolution::Unresolved,
                ..e
            },
            result: Ok(()),
        }
    }
}

/// Resolving a dispute for a winner who must be one of the two parties.
/// If the recipient wins, every milestone is forced to `Released` and the
/// full total is paid out. If the depositor wins, nothing more is paid:
/// released milestones stay released, all others stay `Disputed`.
pub open spec fn resolve_transition(e: EscrowView, winner: u64) -> EscrowStep {
    if !(e.status is Disputed) {
        escrow_fail(e, Error::InvalidEscrowStatus)
    } else if winner != e.depositor && winner != e.recipient {
        escrow_fail(e, Error::InvalidWinner)
    } else if winner == e.recipient {
        EscrowStep {
            escrow: EscrowView {
                milestones: Seq::new(e.milestones.len(), |i: int| released_milestone(e.milestones[i])),
                total_released: e.total_amount,
                status: EscrowStatus::Resolved,
                resolution: Resolution::Recipient,
                ..e
            },
            result: Ok(()),
        }
    } else {
        EscrowStep {
            escrow: EscrowView {
                milestones: Seq::new(e.milestones.len(), |i: int| disputed_milestone(e.milestones[i])),
                status: EscrowStatus::Resolved,
                resolution: Resolution::Depositor,
                ..e
            },
            result: Ok(()),
        }
    }
}

/// Cancelling an escrow: only the depositor, only while active, and only
/// before any payout.
pub open spec fn cancel_transition(e: EscrowView, caller: u64) -> EscrowStep {
    if caller != e.depositor {
        escrow_fail(e, Error::UnauthorizedAccess)
    } else if !(e.status is Active) {
        escrow_fail(e, Error::InvalidEscrowStatus)
    } else if e.total_released > 0 {
        escrow_fail(e, Error::MilestoneAlreadyReleased)
    } else {
        EscrowStep {
            escrow: EscrowView { status: EscrowStatus::Cancelled, ..e },
            result: Ok(()),
        }
    }
}

/// Completing an escrow: only the depositor, only while active, and only
/// once every milestone has been released.
pub open spec fn complete_transition(e: EscrowView, caller: u64) -> EscrowStep {
    if caller != e.depositor {
        escrow_fail(e, Error::UnauthorizedAccess)
    } else if !(e.status is Active) {
        escrow_fail(e, Error::InvalidEscrowStatus)
    } else if !all_released(e.milestones) {
        escrow_fail(e, Error::EscrowNotActive)
    } else {
        EscrowStep {
            escrow: EscrowView { status: EscrowStatus::Completed, ..e },
            result: Ok(()),
        }
    }
}

/// Initializing the admin registry: at most once, and the caller must be
/// the admin identity being registered.
pub open spec fn init_store(s: StoreView, admin: u64, caller: u64) -> StoreStep {
    if s.admin is Some {
        store_fail(s, Error::AlreadyInitialized)
    } else if caller != admin {
        store_fail(s, Error::UnauthorizedAccess)
    } else {
        StoreStep { store: StoreView { admin: Option::Some(admin), ..s }, result: Ok(()) }
    }
}

/// Creating an escrow in the store: the caller must be the depositor, the
/// identifier must be fresh, and the schedule must validate.
pub open spec fn create_store(
    s: StoreView,
    escrow_id: u64,
    depositor: u64,
    recipient: u64,
    ms: Seq<MilestoneView>,
    caller: u64,
) -> StoreStep {
    if caller != depositor {
        store_fail(s, Error::UnauthorizedAccess)
    } else if s.escrows.contains_key(escrow_id) {
        store_fail(s, Error::EscrowAlreadyExists)
    } else {
        match validate_transition(ms) {
            Err(err) => store_fail(s, err),
            Ok(total_amount) => StoreStep {
                store: StoreView {
                    escrows: s.escrows.insert(
                        escrow_id,
                        created_escrow(depositor, recipient, ms, total_amount),
                    ),
                    ..s
                },
                result: Ok(()),
            },
        }
    }
}

/// Lifts a transition on one aggregate to the store: look the escrow up,
/// apply the transition, and write the result back only on success.
pub open spec fn store_apply(s: StoreView, escrow_id: u64, step: EscrowStep) -> StoreStep {
    if step.result is Ok {
        StoreStep {
            store: StoreView { escrows: s.escrows.insert(escrow_id, step.escrow), ..s },
            result: Ok(()),
        }
    } else {
        StoreStep { store: s, result: step.result }
    }
}

pub open spec fn release_store(
    s: StoreView,
    escrow_id: u64,
    milestone_index: u32,
    caller: u64,
) -> StoreStep {
    if !s.escrows.contains_key(escrow_id) {
        store_fail(s, Error::EscrowNotFound)
    } else {
        store_apply(s, escrow_id, release_transition(s.escrows[escrow_id], milestone_index, caller))
    }
}

pub open spec fn raise_store(s: StoreView, escrow_id: u64, caller: u64) -> StoreStep {
    if !s.escrows.contains_key(escrow_id) {
        store_fail(s, Error::EscrowNotFound)
    } else {
        store_apply(s, escrow_id, raise_transition(s.escrows[escrow_id], caller))
    }
}

/// Resolution is gated by the admin registry: it must be initialized and
/// the caller must be the admin.
pub open spec fn resolve_store(s: StoreView, escrow_id: u64, winner: u64, caller: u64) -> StoreStep {
    match s.admin {
        Option::None => store_fail(s, Error::AdminNotInitialized),
        Option::Some(admin) => {
            if caller != admin {
                store_fail(s, Error::UnauthorizedAccess)
            } else if !s.escrows.contains_key(escrow_id) {
                store_fail(s, Error::EscrowNotFound)
            } else {
                store_apply(s, escrow_id, resolve_transition(s.escrows[escrow_id], winner))
            }
        },
    }
}

pub open spec fn cancel_store(s: StoreView, escrow_id: u64, caller: u64) -> StoreStep {
    if !s.escrows.contains_key(escrow_id) {
        store_fail(s, Error::EscrowNotFound)
    } else {
        store_apply(s, escrow_id, cancel_transition(s.escrows[escrow_id], caller))
    }
}

pub open spec fn complete_store(s: StoreView, escrow_id: u64, caller: u64) -> StoreStep {
    if !s.escrows.contains_key(escrow_id) {
        store_fail(s, Error::EscrowNotFound)
    } else {
        store_apply(s, escrow_id, complete_transition(s.escrows[escrow_id], caller))
    }
}

/// One operation of the public interface, with its arguments.
pub enum Op {
    Init { admin: u64, caller: u64 },
    Create {
        escrow_id: u64,
        depositor: u64,
        recipient: u64,
        milestones: Seq<MilestoneView>,
        caller: u64,
    },
    Release { escrow_id: u64, milestone_index: u32, caller: u64 },
    Raise { escrow_id: u64, caller: u64 },
    Resolve { escrow_id: u64, winner: u64, caller: u64 },
    Cancel { escrow_id: u64, caller: u64 },
    Complete { escrow_id: u64, caller: u64 },
}

/// The step function of the state machine: any one operation applied to
/// the store.
pub open spec fn step(s: StoreView, op: Op) -> StoreStep {
    match op {
        Op::Init { admin, caller } => init_store(s, admin, caller),
        Op::Create { escrow_id, depositor, recipient, milestones, caller } => create_store(
            s,
            escrow_id,
            depositor,
            recipient,
            milestones,
            caller,
        ),
        Op::Release { escrow_id, milestone_index, caller } => release_store(
            s,
            escrow_id,
            milestone_index,
            caller,
        ),
        Op::Raise { escrow_id, caller } => raise_store(s, escrow_id, caller),
        Op::Resolve { escrow_id, winner, caller } => resolve_store(s, escrow_id, winner, caller),
        Op::Cancel { escrow_id, caller } => cancel_store(s, escrow_id, caller),
        Op::Complete { escrow_id, caller } => complete_store(s, escrow_id, caller),
    }
}

/// The store reached by running a sequence of operations from a starting
/// store, failing operations included (they change nothing).
pub open spec fn run(s: StoreView, ops: Seq<Op>) -> StoreView
    decreases ops.len(),
{
    if ops.len() == 0 {
        s
    } else {
        step(run(s, ops.drop_last()), ops.last()).store
    }
}

} // verus!

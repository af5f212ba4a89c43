//! The executable transition logic on one escrow aggregate, verified
//! against the transition functions of [`crate::model`].

use vstd::prelude::*;
use crate::escrow::Error;
use crate::escrow::Escrow;
use crate::escrow::EscrowStatus;
use crate::escrow::Milestone;
use crate::escrow::MilestoneStatus;
use crate::escrow::Resolution;
use crate::model::all_released;
use crate::model::created_escrow;
use crate::model::complete_transition;
use crate::model::cancel_transition;
use crate::model::disputed_milestone;
use crate::model::pending_milestone;
use crate::model::raise_transition;
use crate::model::release_transition;
use crate::model::released_milestone;
use crate::model::resolve_transition;
use crate::model::validate_transition;
use crate::sums::lemma_sum_amounts_extend_prefix;
use crate::sums::lemma_sum_amounts_ge_prefix;
use crate::sums::sum_amounts;

verus! {

/// Validates a milestone schedule and returns the total of its amounts:
/// one to twenty milestones, every amount strictly positive, no overflow
/// of the total.
pub fn validate_milestones(milestones: &Vec<Milestone>) -> (result: Result<i128, Error>)
    ensures
        result == validate_transition(milestones.deep_view()),
{
    if milestones.len() < 1 || milestones.len() > 20 {
        return Err(Error::VectorTooLarge);
    }
    let mut total: i128 = 0;
    let mut i: usize = 0;
    while i < milestones.len()
        invariant
            1 <= milestones@.len() <= 20,
            0 <= i <= milestones@.len(),
            total >= 0,
            forall|j: int| 0 <= j < i ==> (#[trigger] milestones.deep_view()[j]).amount > 0,
            total as int == sum_amounts(milestones.deep_view().subrange(0, i as int)),
        decreases milestones@.len() - i,
    {
        let amount = milestones[i].amount;
        if amount <= 0 {
            assert(milestones.deep_view()[i as int].amount <= 0);
            return Err(Error::InvalidMilestoneAmount);
        }
        total = match total.checked_add(amount) {
            Some(t) => t,
            None => {
                proof {
                    let ms = milestones.deep_view();
                    if exists|j: int| 0 <= j < ms.len() && (#[trigger] ms[j]).amount <= 0 {
                    } else {
                        assert(forall|j: int| 0 <= j < ms.len() ==> (#[trigger] ms[j]).amount > 0);
                        lemma_sum_amounts_extend_prefix(ms, i as int);
                        lemma_sum_amounts_ge_prefix(ms, i as int + 1);
                    }
                }
                return Err(Error::InvalidMilestoneAmount);
            },
        };
        proof {
            lemma_sum_amounts_extend_prefix(milestones.deep_view(), i as int);
        }
        i += 1;
    }
    assert(milestones.deep_view().subrange(0, milestones@.len() as int) =~= milestones.deep_view());
    Ok(total)
}

/// Whether every milestone of the schedule has been released.
pub fn verify_all_released(milestones: &Vec<Milestone>) -> (result: bool)
    ensures
        result == all_released(milestones.deep_view()),
{
    let mut i: usize = 0;
    while i < milestones.len()
        invariant
            0 <= i <= milestones@.len(),
            forall|j: int| 0 <= j < i ==> (#[trigger] milestones.deep_view()[j]).status
                is Released,
        decreases milestones@.len() - i,
    {
        if milestones[i].status != MilestoneStatus::Released {
            assert(!(milestones.deep_view()[i as int].status is Released));
            return false;
        }
        i += 1;
    }
    true
}

impl Escrow {
    /// Builds a new escrow aggregate from a milestone schedule, validating
    /// it first. Every milestone status is forced to `Pending` whatever the
    /// caller supplied, nothing is released, and the escrow starts `Active`.
    pub fn create(depositor: u64, recipient: u64, milestones: Vec<Milestone>) -> (result: Result<
        Escrow,
        Error,
    >)
        ensures
            ({
                let validated = validate_transition(milestones.deep_view());
                match result {
                    Ok(escrow) => validated is Ok && escrow@ == created_escrow(
                        depositor,
                        recipient,
                        milestones.deep_view(),
                        validated->Ok_0,
                    ),
                    Err(err) => validated == Err::<i128, Error>(err),
                }
            }),
    {
        let total_amount = match validate_milestones(&milestones) {
            Ok(total) => total,
            Err(err) => {
                return Err(err);
            },
        };
        let mut initialized: Vec<Milestone> = Vec::new();
        let mut i: usize = 0;
        while i < milestones.len()
            invariant
                0 <= i <= milestones@.len(),
                initialized@.len() == i,
                forall|j: int| 0 <= j < i ==> initialized.deep_view()[j] == pending_milestone(
                    #[trigger] milestones.deep_view()[j],
                ),
            decreases milestones@.len() - i,
        {
            let m = Milestone {
                amount: milestones[i].amount,
                status: MilestoneStatus::Pending,
                description: milestones[i].description.clone(),
            };
            initialized.push(m);
            i += 1;
        }
        let escrow = Escrow {
            depositor,
            recipient,
            total_amount,
            total_released: 0,
            milestones: initialized,
            status: EscrowStatus::Active,
            resolution: Resolution::Unresolved,
        };
        proof {
            let made = created_escrow(depositor, recipient, milestones.deep_view(), total_amount);
            assert(escrow@.milestones =~= made.milestones);
            assert(escrow@ =~= made);
        }
        Ok(escrow)
    }

    /// Releases the milestone at the given index to the recipient. Only
    /// the depositor (as the authenticated caller) may release, only while
    /// the escrow is active, and each milestone is released at most once.
    pub fn release_milestone(&mut self, milestone_index: u32, caller: u64) -> (result: Result<
        (),
        Error,
    >)
        ensures
            ({
                let step = release_transition(old(self)@, milestone_index, caller);
                final(self)@ == step.escrow && result == step.result
            }),
    {
        if caller != self.depositor {
            return Err(Error::UnauthorizedAccess);
        }
        if self.status != EscrowStatus::Active {
            return Err(Error::EscrowNotActive);
        }
        let idx = milestone_index as usize;
        if idx >= self.milestones.len() {
            return Err(Error::MilestoneNotFound);
        }
        if self.milestones[idx].status == MilestoneStatus::Released {
            return Err(Error::MilestoneAlreadyReleased);
        }
        let amount = self.milestones[idx].amount;
        let new_total = match self.total_released.checked_add(amount) {
            Some(t) => t,
            None => {
                return Err(Error::InvalidMilestoneAmount);
            },
        };
        let released = Milestone {
            amount,
            status: MilestoneStatus::Released,
            description: self.milestones[idx].description.clone(),
        };
        self.milestones[idx] = released;
        self.total_released = new_total;
        proof {
            let step = release_transition(old(self)@, milestone_index, caller);
            assert(self@.milestones =~= step.escrow.milestones);
            assert(self@ =~= step.escrow);
        }
        Ok(())
    }

    /// Raises a dispute on an active escrow. Either party may raise it;
    /// every milestone not yet released is frozen as `Disputed`.
    pub fn raise_dispute(&mut self, caller: u64) -> (result: Result<(), Error>)
        ensures
            ({
                let step = raise_transition(old(self)@, caller);
                final(self)@ == step.escrow && result == step.result
            }),
    {
        if caller != self.depositor && caller != self.recipient {
            return Err(Error::UnauthorizedAccess);
        }
        if self.status == EscrowStatus::Disputed {
            return Err(Error::AlreadyInDispute);
        }
        if self.status != EscrowStatus::Active {
            return Err(Error::InvalidEscrowStatus);
        }
        self.freeze_pending_milestones();
        self.status = EscrowStatus::Disputed;
        self.resolution = Resolution::Unresolved;
        proof {
            let step = raise_transition(old(self)@, caller);
            assert(self@.milestones =~= step.escrow.milestones);
            assert(self@ =~= step.escrow);
        }
        Ok(())
    }

    /// Resolves a dispute for the given winner. If the recipient wins,
    /// every milestone is forced to `Released` and the full total is paid
    /// out; if the depositor wins, nothing more is paid.
    pub fn resolve_dispute(&mut self, winner: u64) -> (result: Result<(), Error>)
        ensures
            ({
                let step = resolve_transition(old(self)@, winner);
                final(self)@ == step.escrow && result == step.result
            }),
    {
        if self.status != EscrowStatus::Disputed {
            return Err(Error::InvalidEscrowStatus);
        }
        if winner != self.depositor && winner != self.recipient {
            return Err(Error::InvalidWinner);
        }
        if winner == self.recipient {
            self.force_release_milestones();
            self.total_released = self.total_amount;
            self.resolution = Resolution::Recipient;
        } else {
            self.freeze_pending_milestones();
            self.resolution = Resolution::Depositor;
        }
        self.status = EscrowStatus::Resolved;
        proof {
            let step = resolve_transition(old(self)@, winner);
            assert(self@.milestones =~= step.escrow.milestones);
            assert(self@ =~= step.escrow);
        }
        Ok(())
    }

    /// Cancels the escrow: only the depositor, only while active, and
    /// only before any payout.
    pub fn cancel(&mut self, caller: u64) -> (result: Result<(), Error>)
        ensures
            ({
                let step = cancel_transition(old(self)@, caller);
                final(self)@ == step.escrow && result == step.result
            }),
    {
        if caller != self.depositor {
            return Err(Error::UnauthorizedAccess);
        }
        if self.status != EscrowStatus::Active {
            return Err(Error::InvalidEscrowStatus);
        }
        if self.total_released > 0 {
            return Err(Error::MilestoneAlreadyReleased);
        }
        self.status = EscrowStatus::Cancelled;
        Ok(())
    }

    /// Completes the escrow once every milestone has been released.
    pub fn complete(&mut self, caller: u64) -> (result: Result<(), Error>)
        ensures
            ({
                let step = complete_transition(old(self)@, caller);
                final(self)@ == step.escrow && result == step.result
            }),
    {
        if caller != self.depositor {
            return Err(Error::UnauthorizedAccess);
        }
        if self.status != EscrowStatus::Active {
            return Err(Error::InvalidEscrowStatus);
        }
        if !verify_all_released(&self.milestones) {
            return Err(Error::EscrowNotActive);
        }
        self.status = EscrowStatus::Completed;
        Ok(())
    }

    /// Marks every milestone that is not yet released as `Disputed`,
    /// leaving released milestones untouched.
    fn freeze_pending_milestones(&mut self)
        ensures
            final(self)@.milestones == Seq::new(
                old(self)@.milestones.len(),
                |i: int| disputed_milestone(old(self)@.milestones[i]),
            ),
            final(self).depositor == old(self).depositor,
            final(self).recipient == old(self).recipient,
            final(self).total_amount == old(self).total_amount,
            final(self).total_released == old(self).total_released,
            final(self).status == old(self).status,
            final(self).resolution == old(self).resolution,
    {
        let mut i: usize = 0;
        while i < self.milestones.len()
            invariant
                0 <= i <= self.milestones@.len(),
                self.milestones@.len() == old(self).milestones@.len(),
                self.depositor == old(self).depositor,
                self.recipient == old(self).recipient,
                self.total_amount == old(self).total_amount,
                self.total_released == old(self).total_released,
                self.status == old(self).status,
                self.resolution == old(self).resolution,
                forall|j: int| 0 <= j < i ==> self.milestones.deep_view()[j] == disputed_milestone(
                    #[trigger] old(self)@.milestones[j],
                ),
                forall|j: int| i <= j < self.milestones@.len()
                    ==> self.milestones.deep_view()[j] == #[trigger] old(self)@.milestones[j],
            decreases self.milestones@.len() - i,
        {
            if self.milestones[i].status == MilestoneStatus::Pending {
                let frozen = Milestone {
                    amount: self.milestones[i].amount,
                    status: MilestoneStatus::Disputed,
                    description: self.milestones[i].description.clone(),
                };
                self.milestones[i] = frozen;
            }
            assert(self.milestones.deep_view()[i as int] == disputed_milestone(
                old(self)@.milestones[i as int],
            ));
            i += 1;
        }
        assert(self.milestones.deep_view() =~= Seq::new(
            old(self)@.milestones.len(),
            |i: int| disputed_milestone(old(self)@.milestones[i]),
        ));
    }

    /// Forces every milestone to `Released`.
    fn force_release_milestones(&mut self)
        ensures
            final(self)@.milestones == Seq::new(
                old(self)@.milestones.len(),
                |i: int| released_milestone(old(self)@.milestones[i]),
            ),
            final(self).depositor == old(self).depositor,
            final(self).recipient == old(self).recipient,
            final(self).total_amount == old(self).total_amount,
            final(self).total_released == old(self).total_released,
            final(self).status == old(self).status,
            final(self).resolution == old(self).resolution,
    {
        let mut i: usize = 0;
        while i < self.milestones.len()
            invariant
                0 <= i <= self.milestones@.len(),
                self.milestones@.len() == old(self).milestones@.len(),
                self.depositor == old(self).depositor,
                self.recipient == old(self).recipient,
                self.total_amount == old(self).total_amount,
                self.total_released == old(self).total_released,
                self.status == old(self).status,
                self.resolution == old(self).resolution,
                forall|j: int| 0 <= j < i ==> self.milestones.deep_view()[j] == released_milestone(
                    #[trigger] old(self)@.milestones[j],
                ),
                forall|j: int| i <= j < self.milestones@.len()
                    ==> self.milestones.deep_view()[j] == #[trigger] old(self)@.milestones[j],
            decreases self.milestones@.len() - i,
        {
            if self.milestones[i].status != MilestoneStatus::Released {
                let released = Milestone {
                    amount: self.milestones[i].amount,
                    status: MilestoneStatus::Released,
                    description: self.milestones[i].description.clone(),
                };
                self.milestones[i] = released;
            }
            assert(self.milestones.deep_view()[i as int] == released_milestone(
                old(self)@.milestones[i as int],
            ));
            i += 1;
        }
        assert(self.milestones.deep_view() =~= Seq::new(
            old(self)@.milestones.len(),
            |i: int| released_milestone(old(self)@.milestones[i]),
        ));
    }
}

} // verus!

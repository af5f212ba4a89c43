//! The escrow data model: milestones, the escrow aggregate, the error
//! taxonomy, and the mathematical views of each type.

use vstd::prelude::*;

verus! {

/// Status of a single milestone.
#[derive(Clone, Copy, PartialEq, Eq, Structural, Debug)]
pub enum MilestoneStatus {
    Pending,
    Released,
    Disputed,
}

/// Overall status of an escrow. `Completed`, `Cancelled` and `Resolved`
/// are terminal: no operation mutates an escrow that carries one of them.
#[derive(Clone, Copy, PartialEq, Eq, Structural, Debug)]
pub enum EscrowStatus {
    Active,
    Completed,
    Cancelled,
    Disputed,
    Resolved,
}

/// Outcome of a dispute. `Unresolved` is the placeholder carried by every
/// escrow whose status is not `Resolved`.
#[derive(Clone, Copy, PartialEq, Eq, Structural, Debug)]
pub enum Resolution {
    Unresolved,
    Depositor,
    Recipient,
}

/// The closed error taxonomy. Every failing operation reports exactly one
/// of these codes and leaves the store unchanged.
#[derive(Clone, Copy, PartialEq, Eq, Structural, Debug)]
pub enum Error {
    EscrowNotFound,
    EscrowAlreadyExists,
    MilestoneNotFound,
    MilestoneAlreadyReleased,
    UnauthorizedAccess,
    InvalidMilestoneAmount,
    TotalAmountMismatch,
    InsufficientBalance,
    EscrowNotActive,
    VectorTooLarge,
    AdminNotInitialized,
    AlreadyInitialized,
    InvalidEscrowStatus,
    AlreadyInDispute,
    InvalidWinner,
}

/// One payment tranche of an escrow: a strictly positive amount, a status,
/// and a short opaque label fixed at creation.
#[derive(Debug)]
pub struct Milestone {
    pub amount: i128,
    pub status: MilestoneStatus,
    pub description: String,
}

/// Mathematical view of a [`Milestone`].
pub struct MilestoneView {
    pub amount: i128,
    pub status: MilestoneStatus,
    pub description: Seq<char>,
}

impl View for Milestone {
    type V = MilestoneView;

    open spec fn view(&self) -> MilestoneView {
        MilestoneView { amount: self.amount, status: self.status, description: self.description@ }
    }
}

impl DeepView for Milestone {
    type V = MilestoneView;

    open spec fn deep_view(&self) -> MilestoneView {
        self.view()
    }
}

impl Clone for Milestone {
    fn clone(&self) -> (res: Self)
        ensures
            res == *self,
    {
        Milestone {
            amount: self.amount,
            status: self.status,
            description: self.description.clone(),
        }
    }
}

/// The escrow aggregate: two parties, the fixed total, the running sum of
/// released amounts, the milestone schedule, and the dispute bookkeeping.
#[derive(Debug)]
pub struct Escrow {
    pub depositor: u64,
    pub recipient: u64,
    pub total_amount: i128,
    pub total_released: i128,
    pub milestones: Vec<Milestone>,
    pub status: EscrowStatus,
    pub resolution: Resolution,
}

/// Mathematical view of an [`Escrow`].
#[verifier::ext_equal]
pub struct EscrowView {
    pub depositor: u64,
    pub recipient: u64,
    pub total_amount: i128,
    pub total_released: i128,
    pub milestones: Seq<MilestoneView>,
    pub status: EscrowStatus,
    pub resolution: Resolution,
}

impl View for Escrow {
    type V = EscrowView;

    open spec fn view(&self) -> EscrowView {
        EscrowView {
            depositor: self.depositor,
            recipient: self.recipient,
            total_amount: self.total_amount,
            total_released: self.total_released,
            milestones: self.milestones.deep_view(),
            status: self.status,
            resolution: self.resolution,
        }
    }
}

/// Copies a milestone schedule element by element.
fn clone_milestones(milestones: &Vec<Milestone>) -> (res: Vec<Milestone>)
    ensures
        res.deep_view() == milestones.deep_view(),
{
    let mut res: Vec<Milestone> = Vec::new();
    let mut i: usize = 0;
    while i < milestones.len()
        invariant
            0 <= i <= milestones.len(),
            res@.len() == i,
            forall|j: int| 0 <= j < i ==> res.deep_view()[j] == milestones.deep_view()[j],
        decreases milestones.len() - i,
    {
        let m = milestones[i].clone();
        assert(m@ == milestones.deep_view()[i as int]);
        res.push(m);
        i += 1;
    }
    assert(res.deep_view() =~= milestones.deep_view());
    res
}

impl Clone for Escrow {
    fn clone(&self) -> (res: Self)
        ensures
            res@ == self@,
    {
        let res = Escrow {
            depositor: self.depositor,
            recipient: self.recipient,
            total_amount: self.total_amount,
            total_released: self.total_released,
            milestones: clone_milestones(&self.milestones),
            status: self.status,
            resolution: self.resolution,
        };
        assert(res@ =~= self@);
        res
    }
}

} // verus!

//! The escrow store: the escrows by identifier together with the admin
//! registry singleton, and the seven public operations on them. Every
//! operation is an atomic read-modify-write: it loads the aggregate,
//! validates, and writes back only on success.

use vstd::prelude::*;
use std::collections::HashMap;
use crate::escrow::Error;
use crate::escrow::Escrow;
use crate::escrow::EscrowView;
use crate::escrow::Milestone;
use crate::model::create_store;
use crate::model::complete_store;
use crate::model::cancel_store;
use crate::model::empty_store;
use crate::model::init_store;
use crate::model::raise_store;
use crate::model::release_store;
use crate::model::resolve_store;
use crate::model::StoreView;

verus! {

broadcast use vstd::std_specs::hash::group_hash_axioms;

/// The views of all escrows in the backing map.
pub open spec fn escrow_views(m: Map<u64, Escrow>) -> Map<u64, EscrowView> {
    m.map_values(|e: Escrow| e@)
}

proof fn lemma_escrow_views_contains(m: Map<u64, Escrow>, k: u64)
    ensures
        escrow_views(m).contains_key(k) == m.contains_key(k),
{
}

proof fn lemma_escrow_views_index(m: Map<u64, Escrow>, k: u64)
    requires
        m.contains_key(k),
    ensures
        escrow_views(m).contains_key(k),
        escrow_views(m)[k] == m[k]@,
{
}

proof fn lemma_escrow_views_insert(m: Map<u64, Escrow>, k: u64, v: Escrow)
    ensures
        escrow_views(m.insert(k, v)) == escrow_views(m).insert(k, v@),
{
    assert(escrow_views(m.insert(k, v))
        =~= escrow_views(m).insert(k, v@));
}

/// The escrow store. It owns every escrow aggregate, keyed by identifier,
/// and the admin identity once the registry has been initialized.
pub struct VaultixEscrow {
    escrows: HashMap<u64, Escrow>,
    admin: Option<u64>,
}

impl View for VaultixEscrow {
    type V = StoreView;

    closed spec fn view(&self) -> StoreView {
        StoreView { escrows: escrow_views(self.escrows@), admin: self.admin }
    }
}

impl VaultixEscrow {
    /// A fresh store: no escrows, no admin.
    pub fn new() -> (registry: Self)
        ensures
            registry@ == empty_store(),
    {
        let registry = VaultixEscrow { escrows: HashMap::new(), admin: Option::None };
        proof {
            assert(registry@.escrows =~= empty_store().escrows);
            assert(registry@ =~= empty_store());
        }
        registry
    }

    /// Initializes the registry with the admin identity responsible for
    /// dispute resolution: at most once, and only by the admin itself.
    /// `caller` is the identity the host has authenticated for this call.
    pub fn init(&mut self, admin: u64, caller: u64) -> (result: Result<(), Error>)
        ensures
            ({
                let step = init_store(old(self)@, admin, caller);
                final(self)@ == step.store && result == step.result
            }),
    {
        if self.admin.is_some() {
            return Err(Error::AlreadyInitialized);
        }
        if caller != admin {
            return Err(Error::UnauthorizedAccess);
        }
        self.admin = Option::Some(admin);
        proof {
            assert(self@ =~= init_store(old(self)@, admin, caller).store);
        }
        Ok(())
    }

    /// The admin identity, once the registry has been initialized.
    pub fn get_admin(&self) -> (result: Result<u64, Error>)
        ensures
            match self@.admin {
                Option::Some(admin) => result == Ok::<u64, Error>(admin),
                Option::None => result == Err::<u64, Error>(Error::AdminNotInitialized),
            },
    {
        match self.admin {
            Option::Some(admin) => Ok(admin),
            Option::None => Err(Error::AdminNotInitialized),
        }
    }

    /// Creates a new escrow under a fresh identifier. The caller must be
    /// the depositor; the schedule must hold one to twenty milestones,
    /// every amount strictly positive, with a total that does not
    /// overflow. All milestone statuses are forced to `Pending`.
    pub fn create_escrow(
        &mut self,
        escrow_id: u64,
        depositor: u64,
        recipient: u64,
        milestones: Vec<Milestone>,
        caller: u64,
    ) -> (result: Result<(), Error>)
        ensures
            ({
                let step = create_store(
                    old(self)@,
                    escrow_id,
                    depositor,
                    recipient,
                    milestones.deep_view(),
                    caller,
                );
                final(self)@ == step.store && result == step.result
            }),
    {
        if caller != depositor {
            return Err(Error::UnauthorizedAccess);
        }
        proof {
            lemma_escrow_views_contains(self.escrows@, escrow_id);
        }
        if self.escrows.contains_key(&escrow_id) {
            return Err(Error::EscrowAlreadyExists);
        }
        let ghost schedule = milestones.deep_view();
        let escrow = match Escrow::create(depositor, recipient, milestones) {
            Ok(escrow) => escrow,
            Err(err) => {
                return Err(err);
            },
        };
        proof {
            lemma_escrow_views_insert(self.escrows@, escrow_id, escrow);
        }
        self.escrows.insert(escrow_id, escrow);
        proof {
            let step = create_store(old(self)@, escrow_id, depositor, recipient, schedule, caller);
            assert(self@ =~= step.store);
        }
        Ok(())
    }

    /// Releases one milestone of the escrow to the recipient.
    pub fn release_milestone(&mut self, escrow_id: u64, milestone_index: u32, caller: u64) -> (result:
        Result<(), Error>)
        ensures
            ({
                let step = release_store(old(self)@, escrow_id, milestone_index, caller);
                final(self)@ == step.store && result == step.result
            }),
    {
        proof {
            lemma_escrow_views_contains(self.escrows@, escrow_id);
        }
        let stored = match self.escrows.get(&escrow_id) {
            Some(e) => e,
            None => {
                return Err(Error::EscrowNotFound);
            },
        };
        proof {
            lemma_escrow_views_index(self.escrows@, escrow_id);
        }
        let mut escrow = stored.clone();
        let result = escrow.release_milestone(milestone_index, caller);
        match result {
            Ok(()) => {
                proof {
                    lemma_escrow_views_insert(self.escrows@, escrow_id, escrow);
                }
                self.escrows.insert(escrow_id, escrow);
                proof {
                    assert(self@ =~= release_store(
                        old(self)@,
                        escrow_id,
                        milestone_index,
                        caller,
                    ).store);
                }
                Ok(())
            },
            Err(err) => Err(err),
        }
    }

    /// Raises a dispute on the escrow, freezing further releases.
    pub fn raise_dispute(&mut self, escrow_id: u64, caller: u64) -> (result: Result<(), Error>)
        ensures
            ({
                let step = raise_store(old(self)@, escrow_id, caller);
                final(self)@ == step.store && result == step.result
            }),
    {
        proof {
            lemma_escrow_views_contains(self.escrows@, escrow_id);
        }
        let stored = match self.escrows.get(&escrow_id) {
            Some(e) => e,
            None => {
                return Err(Error::EscrowNotFound);
            },
        };
        proof {
            lemma_escrow_views_index(self.escrows@, escrow_id);
        }
        let mut escrow = stored.clone();
        let result = escrow.raise_dispute(caller);
        match result {
            Ok(()) => {
                proof {
                    lemma_escrow_views_insert(self.escrows@, escrow_id, escrow);
                }
                self.escrows.insert(escrow_id, escrow);
                proof {
                    assert(self@ =~= raise_store(old(self)@, escrow_id, caller).store);
                }
                Ok(())
            },
            Err(err) => Err(err),
        }
    }

    /// Resolves a dispute in favor of the given winner. Only the admin may
    /// resolve, and only an escrow that is in dispute.
    pub fn resolve_dispute(&mut self, escrow_id: u64, winner: u64, caller: u64) -> (result: Result<
        (),
        Error,
    >)
        ensures
            ({
                let step = resolve_store(old(self)@, escrow_id, winner, caller);
                final(self)@ == step.store && result == step.result
            }),
    {
        let admin = match self.admin {
            Option::Some(a) => a,
            Option::None => {
                return Err(Error::AdminNotInitialized);
            },
        };
        if caller != admin {
            return Err(Error::UnauthorizedAccess);
        }
        proof {
            lemma_escrow_views_contains(self.escrows@, escrow_id);
        }
        let stored = match self.escrows.get(&escrow_id) {
            Some(e) => e,
            None => {
                return Err(Error::EscrowNotFound);
            },
        };
        proof {
            lemma_escrow_views_index(self.escrows@, escrow_id);
        }
        let mut escrow = stored.clone();
        let result = escrow.resolve_dispute(winner);
        match result {
            Ok(()) => {
                proof {
                    lemma_escrow_views_insert(self.escrows@, escrow_id, escrow);
                }
                self.escrows.insert(escrow_id, escrow);
                proof {
                    assert(self@ =~= resolve_store(old(self)@, escrow_id, winner, caller).store);
                }
                Ok(())
            },
            Err(err) => Err(err),
        }
    }

    /// Cancels the escrow before any payout has happened.
    pub fn cancel_escrow(&mut self, escrow_id: u64, caller: u64) -> (result: Result<(), Error>)
        ensures
            ({
                let step = cancel_store(old(self)@, escrow_id, caller);
                final(self)@ == step.store && result == step.result
            }),
    {
        proof {
            lemma_escrow_views_contains(self.escrows@, escrow_id);
        }
        let stored = match self.escrows.get(&escrow_id) {
            Some(e) => e,
            None => {
                return Err(Error::EscrowNotFound);
            },
        };
        proof {
            lemma_escrow_views_index(self.escrows@, escrow_id);
        }
        let mut escrow = stored.clone();
        let result = escrow.cancel(caller);
        match result {
            Ok(()) => {
                proof {
                    lemma_escrow_views_insert(self.escrows@, escrow_id, escrow);
                }
                self.escrows.insert(escrow_id, escrow);
                proof {
                    assert(self@ =~= cancel_store(old(self)@, escrow_id, caller).store);
                }
                Ok(())
            },
            Err(err) => Err(err),
        }
    }

    /// Marks the escrow completed once every milestone has been released.
    pub fn complete_escrow(&mut self, escrow_id: u64, caller: u64) -> (result: Result<(), Error>)
        ensures
            ({
                let step = complete_store(old(self)@, escrow_id, caller);
                final(self)@ == step.store && result == step.result
            }),
    {
        proof {
            lemma_escrow_views_contains(self.escrows@, escrow_id);
        }
        let stored = match self.escrows.get(&escrow_id) {
            Some(e) => e,
            None => {
                return Err(Error::EscrowNotFound);
            },
        };
        proof {
            lemma_escrow_views_index(self.escrows@, escrow_id);
        }
        let mut escrow = stored.clone();
        let result = escrow.complete(caller);
        match result {
            Ok(()) => {
                proof {
                    lemma_escrow_views_insert(self.escrows@, escrow_id, escrow);
                }
                self.escrows.insert(escrow_id, escrow);
                proof {
                    assert(self@ =~= complete_store(old(self)@, escrow_id, caller).store);
                }
                Ok(())
            },
            Err(err) => Err(err),
        }
    }

    /// Retrieves the full escrow aggregate. A pure read: no authorization,
    /// no side effect.
    pub fn get_escrow(&self, escrow_id: u64) -> (result: Result<Escrow, Error>)
        ensures
            match result {
                Ok(escrow) => self@.escrows.contains_key(escrow_id) && escrow@
                    == self@.escrows[escrow_id],
                Err(err) => !self@.escrows.contains_key(escrow_id) && err == Error::EscrowNotFound,
            },
    {
        proof {
            lemma_escrow_views_contains(self.escrows@, escrow_id);
        }
        match self.escrows.get(&escrow_id) {
            Some(e) => {
                proof {
                    lemma_escrow_views_index(self.escrows@, escrow_id);
                }
                Ok(e.clone())
            },
            None => Err(Error::EscrowNotFound),
        }
    }
}

} // verus!

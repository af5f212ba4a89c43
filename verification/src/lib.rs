//! A milestone-based escrow library.
//!
//! Funds committed by a depositor are released to a recipient in fixed
//! tranches ("milestones"), with a dispute path that lets a neutral admin
//! decide the outcome. The crate verifies the escrow state machine: the
//! data model, the legality rules for every transition (create, release,
//! dispute, resolve, cancel, complete), and the arithmetic and bookkeeping
//! invariants that must hold after every operation.

pub mod escrow;
pub mod sums;
pub mod model;
pub mod ops;
pub mod registry;
pub mod laws;

//! Custody-recovery core of a self-custodial Bitcoin wallet backend: the
//! inheritance claim lifecycle, its authorization policy, the completion
//! pipeline that gates the final sweep, and the claim store that keeps at
//! most one active claim per relationship.

pub mod chain;
pub mod model;
pub mod relationships;
pub mod policy;
pub mod machine;
pub mod completion;
pub mod store;
pub mod packages;
pub mod messages;
pub mod wca;
pub mod mempool;
pub mod recovery_actions;

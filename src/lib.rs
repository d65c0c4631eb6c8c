//! Account linking and role synchronization.
//!
//! An external account is linked to a persisted user record through an
//! identity token derived from its credentials. The workflow that creates,
//! updates, checks and (verify-only) deletes such links is a state machine:
//! it says which collaborator call comes next, what to record in the audit
//! log, and what the caller finally receives.

pub mod text;
pub mod token;
pub mod error;
pub mod audit;
pub mod workflow;
pub mod laws;

//! A document-write policy engine for a charitable-endowment platform.
//!
//! The engine intercepts proposed mutations to a shared document store
//! (create/update/delete of typed records) and decides, before commit, whether
//! the mutation is admissible; after commit it derives the audit and alert
//! side effects the host should perform.  All decisions are pure functions of
//! the proposed document, the previous version, the caller identity, the
//! clock, and a snapshot of the records the cross-document checks consult;
//! the host performs the store reads and writes.

pub mod admin;
pub mod cause;
pub mod dispatch;
pub mod text;
pub mod waqf;

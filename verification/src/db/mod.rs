//! Records of the audit database and the rules its repositories apply.
pub mod error;
pub mod stage2_assessments;
pub mod terms;
pub mod keyword_bank;
pub mod synonym_bank;
pub mod kle_pending_terms;
pub mod stage3_matches;
pub mod observations;
pub mod audits;
pub mod kle_merge_requests;
pub mod kle_pending_observations;
pub mod kle_history;
pub mod records;

//! Verified core of the ADITUP safety-audit tool: the records, workflow rules,
//! staging and learning decisions, analytics, export layout and backup
//! packaging that the desktop application drives.
use vstd::prelude::*;

pub mod backup;
pub mod db;
pub mod desktop;
pub mod digest;
pub mod export;
pub mod kle;
pub mod recommendation;
pub mod text;

verus! {

} // verus!

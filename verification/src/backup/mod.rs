//! Backup and restore: compressed, hash-checked snapshots of the database
//! file. Reading and writing the files is the caller's part; this module
//! builds, checks and unpacks the snapshot bytes.
pub mod backup;
pub mod compress;
pub mod error;
pub mod manifest;
pub mod restore;

//! First-run setup and unlocking. The encrypted database file is the
//! authentication boundary: setup creates it, and unlocking succeeds exactly
//! when the password opens it.
use vstd::prelude::*;
use vstd::string::{StringExecFns, StringSliceAdditionalSpecFns};

use crate::desktop::session::{unlocked_state, AccessState};

verus! {

#[derive(Debug, Clone, Copy, PartialEq, Eq)]
pub struct SetupStatus {
    pub needs_setup: bool,
}

#[derive(Debug, Clone, PartialEq)]
pub struct SetupResult {
    /// Shown to the user exactly once.
    pub recovery_key: String,
}

#[derive(Debug, Clone, PartialEq)]
pub struct UnlockResult {
    pub username: String,
}

#[derive(Debug, Clone, Copy, PartialEq, Eq)]
pub struct SessionStatusDto {
    pub needs_setup: bool,
    pub is_locked: bool,
}

/// The shortest master password accepted, in bytes.
pub const MIN_PASSWORD_BYTES: usize = 8;

/// Setup is needed exactly while the database file does not exist.
pub fn check_setup_status(database_exists: bool) -> (r: SetupStatus)
    ensures
        r.needs_setup == !database_exists,
{
    SetupStatus { needs_setup: !database_exists }
}

/// What the frontend polls to choose between Setup, Login and the app.
pub fn session_status(database_exists: bool, locked: bool) -> (r: SessionStatusDto)
    ensures
        r.needs_setup == !database_exists,
        r.is_locked == locked,
{
    SessionStatusDto { needs_setup: !database_exists, is_locked: locked }
}

/// Whether setup may go on: it runs once, and needs a password of at least
/// eight bytes.
pub fn check_setup(database_exists: bool, password: &str) -> (r: Result<(), String>)
    ensures
        database_exists ==> (r matches Err(m) && m@ == "setup has already run"@),
        !database_exists && password.spec_bytes().len() < MIN_PASSWORD_BYTES ==> (r matches Err(m)
            && m@ == "password must be at least 8 characters"@),
        !database_exists && password.spec_bytes().len() >= MIN_PASSWORD_BYTES ==> r is Ok,
{
    if database_exists {
        return Err(String::from_str("setup has already run"));
    }
    if password.as_bytes().len() < MIN_PASSWORD_BYTES {
        return Err(String::from_str("password must be at least 8 characters"));
    }
    Ok(())
}

/// What opening the database with the entered password gave.
#[derive(Debug, Clone, PartialEq)]
pub enum UnlockAttempt {
    /// The password opened it; the owner account's username, if found.
    Opened { owner: Option<String> },
    /// The password was wrong.
    WrongPassword,
    /// Opening or the account lookup failed otherwise, with this message.
    Failed(String),
}

/// What an unlock attempt tells the attempt limiter.
#[derive(Debug, Clone, Copy, PartialEq, Eq, Structural)]
pub enum AttemptRecord {
    Success,
    Failure,
    Nothing,
}

/// The outcome of an unlock attempt.
#[derive(Debug)]
pub struct UnlockStep {
    pub next: AccessState,
    pub result: Result<UnlockResult, String>,
    pub record: AttemptRecord,
}

/// Decides an unlock attempt. Only an opened database with an owner account
/// unlocks, and is a success for the limiter; a wrong password is a failure
/// for it, answered `incorrect password`; anything else leaves the state as
/// it was.
pub fn decide_unlock(state: AccessState, attempt: UnlockAttempt) -> (r: UnlockStep)
    ensures
        match attempt {
            UnlockAttempt::Opened { owner: Some(name) } => r.next == unlocked_state(state)
                && r.record == AttemptRecord::Success && (r.result matches Ok(u) && u.username
                == name),
            UnlockAttempt::Opened { owner: None } => r.next == state && r.record
                == AttemptRecord::Nothing && (r.result matches Err(m) && m@
                == "no account found in this database"@),
            UnlockAttempt::WrongPassword => r.next == state && r.record == AttemptRecord::Failure
                && (r.result matches Err(m) && m@ == "incorrect password"@),
            UnlockAttempt::Failed(message) => r.next == state && r.record == AttemptRecord::Nothing
                && (r.result matches Err(m) && m == message),
        },
{
    match attempt {
        UnlockAttempt::Opened { owner: Some(name) } => UnlockStep {
            next: AccessState { database_open: true, admin_elevated: state.admin_elevated },
            result: Ok(UnlockResult { username: name }),
            record: AttemptRecord::Success,
        },
        UnlockAttempt::Opened { owner: None } => UnlockStep {
            next: state,
            result: Err(String::from_str("no account found in this database")),
            record: AttemptRecord::Nothing,
        },
        UnlockAttempt::WrongPassword => UnlockStep {
            next: state,
            result: Err(String::from_str("incorrect password")),
            record: AttemptRecord::Failure,
        },
        UnlockAttempt::Failed(message) => UnlockStep {
            next: state,
            result: Err(message),
            record: AttemptRecord::Nothing,
        },
    }
}

} // verus!

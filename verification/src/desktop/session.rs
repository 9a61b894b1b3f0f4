//! The access gate every command passes: data access needs the database
//! open and the session not idle; Admin Console access needs, on top, the
//! Admin PIN verified this session. Locking closes the database and drops
//! Admin access, and only re-entering the password opens it again.
use vstd::prelude::*;
use vstd::string::StringExecFns;

verus! {

/// What the application holds between commands.
#[derive(Debug, Clone, Copy, PartialEq, Eq, Structural)]
pub struct AccessState {
    /// The encrypted database is open (the app is unlocked).
    pub database_open: bool,
    /// The Admin PIN has been verified this session.
    pub admin_elevated: bool,
}

/// Why a command was refused.
#[derive(Debug, Clone, Copy, PartialEq, Eq, Structural)]
pub enum AccessDenied {
    Locked,
    AdminNotUnlocked,
}

impl AccessDenied {
    /// The message the refusal is shown with.
    pub open spec fn text(self) -> Seq<char> {
        match self {
            AccessDenied::Locked => "the app is locked"@,
            AccessDenied::AdminNotUnlocked => "Admin access has not been unlocked"@,
        }
    }

    pub fn message(&self) -> (r: String)
        ensures
            r@ == self.text(),
    {
        match self {
            AccessDenied::Locked => String::from_str("the app is locked"),
            AccessDenied::AdminNotUnlocked => String::from_str(
                "Admin access has not been unlocked",
            ),
        }
    }
}

/// The outcome of a command's request for access.
#[derive(Debug, Clone, Copy)]
pub struct AccessStep {
    /// The state after the request.
    pub next: AccessState,
    /// Whether the command may go on.
    pub granted: Result<(), AccessDenied>,
    /// Whether the request counts as activity, restarting the idle clock.
    pub touch_session: bool,
}

/// A data request. When the session has gone idle the database is closed
/// and the request refused; otherwise it counts as activity and goes on if
/// the database is open.
pub open spec fn data_access_step(state: AccessState, idle_expired: bool) -> AccessStep {
    if idle_expired {
        AccessStep {
            next: AccessState { database_open: false, admin_elevated: state.admin_elevated },
            granted: Err(AccessDenied::Locked),
            touch_session: false,
        }
    } else if !state.database_open {
        AccessStep { next: state, granted: Err(AccessDenied::Locked), touch_session: true }
    } else {
        AccessStep { next: state, granted: Ok(()), touch_session: true }
    }
}

/// An Admin Console request: refused unless the Admin PIN was verified this
/// session, and then a data request.
pub open spec fn admin_access_step(state: AccessState, idle_expired: bool) -> AccessStep {
    if !state.admin_elevated {
        AccessStep {
            next: state,
            granted: Err(AccessDenied::AdminNotUnlocked),
            touch_session: false,
        }
    } else {
        data_access_step(state, idle_expired)
    }
}

/// The state after locking: database closed, Admin access dropped.
pub open spec fn locked_state() -> AccessState {
    AccessState { database_open: false, admin_elevated: false }
}

/// The state after the password opened the database.
pub open spec fn unlocked_state(state: AccessState) -> AccessState {
    AccessState { database_open: true, admin_elevated: state.admin_elevated }
}

/// The state after the Admin PIN was set or verified.
pub open spec fn elevated_state(state: AccessState) -> AccessState {
    AccessState { database_open: state.database_open, admin_elevated: true }
}

/// The state after leaving the Admin Console.
pub open spec fn exited_admin_state(state: AccessState) -> AccessState {
    AccessState { database_open: state.database_open, admin_elevated: false }
}

/// The state of a freshly started application: locked, no Admin access.
pub fn initial_access() -> (r: AccessState)
    ensures
        r == locked_state(),
{
    AccessState { database_open: false, admin_elevated: false }
}

/// Decides a data request, given whether the session has gone idle.
pub fn data_access(state: AccessState, idle_expired: bool) -> (r: AccessStep)
    ensures
        r == data_access_step(state, idle_expired),
{
    if idle_expired {
        AccessStep {
            next: AccessState { database_open: false, admin_elevated: state.admin_elevated },
            granted: Err(AccessDenied::Locked),
            touch_session: false,
        }
    } else if !state.database_open {
        AccessStep { next: state, granted: Err(AccessDenied::Locked), touch_session: true }
    } else {
        AccessStep { next: state, granted: Ok(()), touch_session: true }
    }
}

/// Decides an Admin Console request, given whether the session has gone idle.
pub fn admin_access(state: AccessState, idle_expired: bool) -> (r: AccessStep)
    ensures
        r == admin_access_step(state, idle_expired),
{
    if !state.admin_elevated {
        AccessStep {
            next: state,
            granted: Err(AccessDenied::AdminNotUnlocked),
            touch_session: false,
        }
    } else {
        data_access(state, idle_expired)
    }
}

/// Locks the application.
pub fn lock(state: AccessState) -> (r: AccessState)
    ensures
        r == locked_state(),
{
    AccessState { database_open: false, admin_elevated: false }
}

/// Records that the password opened the database.
pub fn unlock(state: AccessState) -> (r: AccessState)
    ensures
        r == unlocked_state(state),
{
    AccessState { database_open: true, admin_elevated: state.admin_elevated }
}

/// Records that the Admin PIN was set or verified.
pub fn elevate_admin(state: AccessState) -> (r: AccessState)
    ensures
        r == elevated_state(state),
{
    AccessState { database_open: state.database_open, admin_elevated: true }
}

/// Leaves the Admin Console without locking the application.
pub fn exit_admin(state: AccessState) -> (r: AccessState)
    ensures
        r == exited_admin_state(state),
{
    AccessState { database_open: state.database_open, admin_elevated: false }
}

/// A granted request leaves the database open; a granted Admin request
/// also leaves Admin access in place.
pub proof fn lemma_granted_needs_open_database(state: AccessState, idle_expired: bool)
    ensures
        data_access_step(state, idle_expired).granted is Ok ==> state.database_open
            && !idle_expired,
        admin_access_step(state, idle_expired).granted is Ok ==> state.database_open
            && state.admin_elevated && !idle_expired,
{
}

/// No request opens the database or grants Admin access by itself.
pub proof fn lemma_requests_never_widen_access(state: AccessState, idle_expired: bool)
    ensures
        data_access_step(state, idle_expired).next.database_open ==> state.database_open,
        data_access_step(state, idle_expired).next.admin_elevated == state.admin_elevated,
        admin_access_step(state, idle_expired).next.database_open ==> state.database_open,
        admin_access_step(state, idle_expired).next.admin_elevated == state.admin_elevated,
{
}

/// Once locked, every data and Admin request is refused until the password
/// is entered again.
pub proof fn lemma_locked_refuses_everything(idle_expired: bool)
    ensures
        data_access_step(locked_state(), idle_expired).granted is Err,
        admin_access_step(locked_state(), idle_expired).granted is Err,
{
}

/// Re-entering the password after a lock does not bring Admin access back:
/// Admin requests are refused until the PIN is verified again.
pub proof fn lemma_unlock_after_lock_is_not_admin(idle_expired: bool)
    ensures
        admin_access_step(unlocked_state(locked_state()), idle_expired).granted matches Err(
            AccessDenied::AdminNotUnlocked,
        ),
        data_access_step(unlocked_state(locked_state()), false).granted is Ok,
{
}

/// A session that has gone idle closes the database: the request is
/// refused, and so is every later one until the password is entered again.
pub proof fn lemma_idle_closes_database(state: AccessState, later_idle: bool)
    ensures
        data_access_step(state, true).granted is Err,
        !data_access_step(state, true).next.database_open,
        data_access_step(data_access_step(state, true).next, later_idle).granted is Err,
{
}

} // verus!

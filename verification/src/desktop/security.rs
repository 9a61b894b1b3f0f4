//! The security audit trail as the desktop commands see it: reading an event
//! request, describing a logged entry, and the key-management status texts.
//! Recording and checking the hash chain is in `audit_trail`.
use vstd::prelude::*;
use vstd::string::StringExecFns;

use crate::text::{snake_case, str_eq};

verus! {

/// What kind of action an audit-trail entry records.
#[derive(Debug, Clone, Copy, PartialEq, Eq, Structural)]
pub enum AuditEventKind {
    Auth,
    DataAccess,
    DataModification,
    AdminAction,
    ConfigurationChange,
    SecurityEvent,
}

/// How the recorded action ended.
#[derive(Debug, Clone, Copy, PartialEq, Eq, Structural)]
pub enum AuditOutcome {
    Success,
    Failure,
    Denied,
}

impl AuditEventKind {
    /// The kind a request names, if it names one.
    pub open spec fn named(name: Seq<char>) -> Option<AuditEventKind> {
        if name == "auth"@ {
            Some(AuditEventKind::Auth)
        } else if name == "data_access"@ {
            Some(AuditEventKind::DataAccess)
        } else if name == "data_modification"@ {
            Some(AuditEventKind::DataModification)
        } else if name == "admin_action"@ {
            Some(AuditEventKind::AdminAction)
        } else if name == "config_change"@ {
            Some(AuditEventKind::ConfigurationChange)
        } else if name == "security_event"@ {
            Some(AuditEventKind::SecurityEvent)
        } else {
            None
        }
    }

    /// How a logged entry spells the kind.
    pub open spec fn label(self) -> Seq<char> {
        match self {
            AuditEventKind::Auth => "Auth"@,
            AuditEventKind::DataAccess => "DataAccess"@,
            AuditEventKind::DataModification => "DataModification"@,
            AuditEventKind::AdminAction => "AdminAction"@,
            AuditEventKind::ConfigurationChange => "ConfigurationChange"@,
            AuditEventKind::SecurityEvent => "SecurityEvent"@,
        }
    }

    pub fn parse(name: &str) -> (r: Option<AuditEventKind>)
        ensures
            r == AuditEventKind::named(name@),
    {
        if str_eq(name, "auth") {
            Some(AuditEventKind::Auth)
        } else if str_eq(name, "data_access") {
            Some(AuditEventKind::DataAccess)
        } else if str_eq(name, "data_modification") {
            Some(AuditEventKind::DataModification)
        } else if str_eq(name, "admin_action") {
            Some(AuditEventKind::AdminAction)
        } else if str_eq(name, "config_change") {
            Some(AuditEventKind::ConfigurationChange)
        } else if str_eq(name, "security_event") {
            Some(AuditEventKind::SecurityEvent)
        } else {
            None
        }
    }

    pub fn label_text(self) -> (r: String)
        ensures
            r@ == self.label(),
    {
        match self {
            AuditEventKind::Auth => String::from_str("Auth"),
            AuditEventKind::DataAccess => String::from_str("DataAccess"),
            AuditEventKind::DataModification => String::from_str("DataModification"),
            AuditEventKind::AdminAction => String::from_str("AdminAction"),
            AuditEventKind::ConfigurationChange => String::from_str("ConfigurationChange"),
            AuditEventKind::SecurityEvent => String::from_str("SecurityEvent"),
        }
    }
}

impl AuditOutcome {
    pub open spec fn named(name: Seq<char>) -> Option<AuditOutcome> {
        if name == "success"@ {
            Some(AuditOutcome::Success)
        } else if name == "failure"@ {
            Some(AuditOutcome::Failure)
        } else if name == "denied"@ {
            Some(AuditOutcome::Denied)
        } else {
            None
        }
    }

    pub open spec fn label(self) -> Seq<char> {
        match self {
            AuditOutcome::Success => "Success"@,
            AuditOutcome::Failure => "Failure"@,
            AuditOutcome::Denied => "Denied"@,
        }
    }

    pub fn parse(name: &str) -> (r: Option<AuditOutcome>)
        ensures
            r == AuditOutcome::named(name@),
    {
        if str_eq(name, "success") {
            Some(AuditOutcome::Success)
        } else if str_eq(name, "failure") {
            Some(AuditOutcome::Failure)
        } else if str_eq(name, "denied") {
            Some(AuditOutcome::Denied)
        } else {
            None
        }
    }

    pub fn label_text(self) -> (r: String)
        ensures
            r@ == self.label(),
    {
        match self {
            AuditOutcome::Success => String::from_str("Success"),
            AuditOutcome::Failure => String::from_str("Failure"),
            AuditOutcome::Denied => String::from_str("Denied"),
        }
    }
}

/// A request names an event kind by the snake-case form of the kind's label
/// (`data_access` for `DataAccess`), except configuration changes, named
/// `config_change`. So every kind has exactly one request name, and different
/// names give different kinds.
pub proof fn lemma_event_kind_names(n: Seq<char>, k: AuditEventKind)
    ensures
        AuditEventKind::named(n) == Some(k) <==> if k == AuditEventKind::ConfigurationChange {
            n == "config_change"@
        } else {
            n == snake_case(k.label())
        },
{
    reveal_strlit("auth");
    reveal_strlit("data_access");
    reveal_strlit("data_modification");
    reveal_strlit("admin_action");
    reveal_strlit("config_change");
    reveal_strlit("security_event");
    reveal_strlit("Auth");
    reveal_strlit("DataAccess");
    reveal_strlit("DataModification");
    reveal_strlit("AdminAction");
    reveal_strlit("ConfigurationChange");
    reveal_strlit("SecurityEvent");
    reveal_with_fuel(snake_case, 17);
    assert(snake_case("Auth"@) =~= "auth"@);
    assert(snake_case("DataAccess"@) =~= "data_access"@);
    assert(snake_case("DataModification"@) =~= "data_modification"@);
    assert(snake_case("AdminAction"@) =~= "admin_action"@);
    assert(snake_case("SecurityEvent"@) =~= "security_event"@);
    assert("auth"@.len() == 4);
    assert("data_access"@.len() == 11);
    assert("data_modification"@.len() == 17);
    assert("admin_action"@.len() == 12);
    assert("config_change"@.len() == 13);
    assert("security_event"@.len() == 14);
    assert("data_access"@[5] == 'a');
    assert("data_modification"@[5] == 'm');
}

/// A request names an outcome by its label in lower case, so every outcome
/// has exactly one request name.
pub proof fn lemma_outcome_names(n: Seq<char>, o: AuditOutcome)
    ensures
        AuditOutcome::named(n) == Some(o) <==> n == snake_case(o.label()),
{
    reveal_strlit("success");
    reveal_strlit("failure");
    reveal_strlit("denied");
    reveal_strlit("Success");
    reveal_strlit("Failure");
    reveal_strlit("Denied");
    reveal_with_fuel(snake_case, 8);
    assert(snake_case("Success"@) =~= "success"@);
    assert(snake_case("Failure"@) =~= "failure"@);
    assert(snake_case("Denied"@) =~= "denied"@);
    assert("success"@[0] == 's');
    assert("failure"@[0] == 'f');
    assert("denied"@[0] == 'd');
}

/// A request to record an event in the audit trail.
#[derive(Debug, Clone, PartialEq)]
pub struct LogAuditEventInput {
    pub event_type: String,
    pub user_id: Option<String>,
    pub action: String,
    pub resource: String,
    pub result: String,
    pub details: Option<String>,
}

/// A recorded audit-trail entry as the frontend sees it.
#[derive(Debug, Clone, PartialEq)]
pub struct AuditLogInfo {
    pub id: String,
    pub timestamp: String,
    pub event_type: String,
    pub user_id: Option<String>,
    pub action: String,
    pub resource: String,
    pub result: String,
    pub details: Option<String>,
}

/// Reads the kind and outcome an event request names. An unknown kind is
/// refused with `unknown event type: ` and the name; a known kind with an
/// unknown outcome with `unknown result type: ` and the name.
pub fn read_audit_event(input: &LogAuditEventInput) -> (r: Result<(AuditEventKind, AuditOutcome), String>)
    ensures
        match AuditEventKind::named(input.event_type@) {
            None => r matches Err(m) && m@ == "unknown event type: "@ + input.event_type@,
            Some(kind) => match AuditOutcome::named(input.result@) {
                None => r matches Err(m) && m@ == "unknown result type: "@ + input.result@,
                Some(outcome) => r matches Ok((k, o)) && k == kind && o == outcome,
            },
        },
{
    let kind = match AuditEventKind::parse(input.event_type.as_str()) {
        Some(k) => k,
        None => {
            return Err(
                String::from_str("unknown event type: ").concat(input.event_type.as_str()),
            );
        },
    };
    match AuditOutcome::parse(input.result.as_str()) {
        Some(outcome) => Ok((kind, outcome)),
        None => Err(String::from_str("unknown result type: ").concat(input.result.as_str())),
    }
}

/// The entry recorded for a request, under its id and timestamp: the
/// request's fields, with the kind and outcome spelled as entries spell them.
pub fn audit_log_info(
    id: String,
    timestamp: String,
    kind: AuditEventKind,
    outcome: AuditOutcome,
    input: LogAuditEventInput,
) -> (r: AuditLogInfo)
    ensures
        r.id == id,
        r.timestamp == timestamp,
        r.event_type@ == kind.label(),
        r.result@ == outcome.label(),
        r.user_id == input.user_id,
        r.action == input.action,
        r.resource == input.resource,
        r.details == input.details,
{
    AuditLogInfo {
        id,
        timestamp,
        event_type: kind.label_text(),
        user_id: input.user_id,
        action: input.action,
        resource: input.resource,
        result: outcome.label_text(),
        details: input.details,
    }
}

/// The encryption key's status as reported for audits.
pub fn get_encryption_key_status() -> (r: String)
    ensures
        r@ == "encryption_enabled:true,version:1"@,
{
    String::from_str("encryption_enabled:true,version:1")
}

/// The answer to a key-rotation request.
pub fn rotate_encryption_key() -> (r: String)
    ensures
        r@ == "key_rotation_initiated"@,
{
    String::from_str("key_rotation_initiated")
}

} // verus!

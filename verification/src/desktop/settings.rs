//! Application settings: their defaults, how an update applies, and the
//! fixed descriptions of recommendation modes, backup status and security
//! policy the settings screen shows.
use vstd::prelude::*;
use vstd::string::StringExecFns;

verus! {

#[derive(Debug, Clone, PartialEq)]
pub struct AppSettings {
    pub recommendation_mode: String,
    pub auto_backup_enabled: bool,
    pub backup_interval_days: u32,
    pub idle_timeout_minutes: u32,
    pub encryption_enabled: bool,
}

/// A settings update: each field given replaces the current value.
#[derive(Debug, Clone, PartialEq)]
pub struct UpdateSettingsInput {
    pub recommendation_mode: Option<String>,
    pub auto_backup_enabled: Option<bool>,
    pub backup_interval_days: Option<u32>,
    pub idle_timeout_minutes: Option<u32>,
    pub encryption_enabled: Option<bool>,
}

/// The recommendation mode every installation starts in.
pub open spec fn default_mode() -> Seq<char> {
    "mode-1-rule-based"@
}

/// The settings in force: rule-based recommendations, no automatic backup,
/// a 7-day backup interval, a 15-minute idle timeout and encryption on.
pub open spec fn is_default_settings(s: AppSettings) -> bool {
    &&& s.recommendation_mode@ == default_mode()
    &&& !s.auto_backup_enabled
    &&& s.backup_interval_days == 7
    &&& s.idle_timeout_minutes == 15
    &&& s.encryption_enabled
}

/// `value` if given, else `current`.
pub open spec fn given_or<T>(value: Option<T>, current: T) -> T {
    match value {
        Some(v) => v,
        None => current,
    }
}

/// The settings `current` becomes under `input`.
pub open spec fn updated_settings(current: AppSettings, input: UpdateSettingsInput) -> AppSettings {
    AppSettings {
        recommendation_mode: given_or(input.recommendation_mode, current.recommendation_mode),
        auto_backup_enabled: given_or(input.auto_backup_enabled, current.auto_backup_enabled),
        backup_interval_days: given_or(input.backup_interval_days, current.backup_interval_days),
        idle_timeout_minutes: given_or(input.idle_timeout_minutes, current.idle_timeout_minutes),
        encryption_enabled: given_or(input.encryption_enabled, current.encryption_enabled),
    }
}

/// The current application settings.
pub fn get_app_settings() -> (r: AppSettings)
    ensures
        is_default_settings(r),
{
    AppSettings {
        recommendation_mode: String::from_str("mode-1-rule-based"),
        auto_backup_enabled: false,
        backup_interval_days: 7,
        idle_timeout_minutes: 15,
        encryption_enabled: true,
    }
}

/// The settings `current` becomes under `input`: each field the input gives
/// replaces the current one, the others stay as they are.
pub fn apply_settings_update(current: AppSettings, input: UpdateSettingsInput) -> (r: AppSettings)
    ensures
        r == updated_settings(current, input),
{
    AppSettings {
        recommendation_mode: match input.recommendation_mode {
            Some(m) => m,
            None => current.recommendation_mode,
        },
        auto_backup_enabled: match input.auto_backup_enabled {
            Some(b) => b,
            None => current.auto_backup_enabled,
        },
        backup_interval_days: match input.backup_interval_days {
            Some(d) => d,
            None => current.backup_interval_days,
        },
        idle_timeout_minutes: match input.idle_timeout_minutes {
            Some(m) => m,
            None => current.idle_timeout_minutes,
        },
        encryption_enabled: match input.encryption_enabled {
            Some(b) => b,
            None => current.encryption_enabled,
        },
    }
}

/// The settings after an update applied to the current (default) settings.
pub fn update_app_settings(input: UpdateSettingsInput) -> (r: AppSettings)
    ensures
        r.recommendation_mode@ == match input.recommendation_mode {
            Some(m) => m@,
            None => default_mode(),
        },
        r.auto_backup_enabled == given_or(input.auto_backup_enabled, false),
        r.backup_interval_days == given_or(input.backup_interval_days, 7u32),
        r.idle_timeout_minutes == given_or(input.idle_timeout_minutes, 15u32),
        r.encryption_enabled == given_or(input.encryption_enabled, true),
{
    apply_settings_update(get_app_settings(), input)
}

/// An update that gives no field leaves the settings as they are.
pub proof fn lemma_empty_update_is_identity(current: AppSettings)
    ensures
        updated_settings(
            current,
            UpdateSettingsInput {
                recommendation_mode: None,
                auto_backup_enabled: None,
                backup_interval_days: None,
                idle_timeout_minutes: None,
                encryption_enabled: None,
            },
        ) == current,
{
}

/// Applying the same update twice is the same as applying it once.
pub proof fn lemma_update_is_idempotent(current: AppSettings, input: UpdateSettingsInput)
    ensures
        updated_settings(updated_settings(current, input), input) == updated_settings(
            current,
            input,
        ),
{
}

/// One recommendation mode as the settings screen lists it.
#[derive(Debug, Clone, PartialEq)]
pub struct RecommendationModeInfo {
    pub id: String,
    pub name: String,
    pub description: String,
    pub available: bool,
    pub requires_api_key: bool,
}

#[derive(Debug, Clone, PartialEq)]
pub struct BackupStatus {
    pub last_backup: Option<String>,
    pub auto_backup_enabled: bool,
    pub backup_location: String,
    pub backup_count: u32,
}

/// The directory backups go to: the configured one if set, else
/// `.aditup-backups` under the home directory.
pub fn backup_directory(configured: Option<String>, home: &str) -> (r: String)
    ensures
        r@ == match configured {
            Some(d) => d@,
            None => home@ + "/.aditup-backups"@,
        },
{
    match configured {
        Some(d) => d,
        None => String::from_str(home).concat("/.aditup-backups"),
    }
}

/// The backup status shown on the settings screen for backups kept under
/// this home directory: no backup yet, no automatic backup, none counted.
pub fn get_backup_status(home: &str) -> (r: BackupStatus)
    ensures
        r.last_backup is None,
        !r.auto_backup_enabled,
        r.backup_location@ == home@ + "/.aditup-backups"@,
        r.backup_count == 0,
{
    BackupStatus {
        last_backup: None,
        auto_backup_enabled: false,
        backup_location: backup_directory(None, home),
        backup_count: 0,
    }
}

#[derive(Debug, Clone, Copy, PartialEq, Eq)]
pub struct PasswordPolicy {
    pub min_length: u32,
    pub require_uppercase: bool,
    pub require_digits: bool,
    pub require_special: bool,
}

#[derive(Debug, Clone, Copy, PartialEq, Eq)]
pub struct SecuritySettings {
    pub encryption_at_rest: bool,
    pub audit_logging_enabled: bool,
    pub password_policy: PasswordPolicy,
    pub session_timeout_minutes: u32,
}

/// The security policy in force: encryption at rest and audit logging on,
/// passwords of at least 12 characters with an upper-case letter, a digit
/// and a special character, and a 15-minute session timeout.
pub fn get_security_settings() -> (r: SecuritySettings)
    ensures
        r == (SecuritySettings {
            encryption_at_rest: true,
            audit_logging_enabled: true,
            password_policy: PasswordPolicy {
                min_length: 12,
                require_uppercase: true,
                require_digits: true,
                require_special: true,
            },
            session_timeout_minutes: 15,
        }),
{
    SecuritySettings {
        encryption_at_rest: true,
        audit_logging_enabled: true,
        password_policy: PasswordPolicy {
            min_length: 12,
            require_uppercase: true,
            require_digits: true,
            require_special: true,
        },
        session_timeout_minutes: 15,
    }
}

} // verus!

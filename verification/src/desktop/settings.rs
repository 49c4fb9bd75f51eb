//! The desktop application's settings and their defaults.

use vstd::prelude::*;
use crate::text::to_owned;

verus! {

/// The inbox configuration that the desktop application reads.
pub struct Config {
    pub inbox_paths: Vec<String>,
    pub pause_watchers: bool,
    pub quarantine_retention_days: u32,
}

/// The quarantine retention a configuration gets when it names none.
pub fn default_quarantine_days() -> (r: u32)
    ensures
        r == 30,
{
    30
}

impl Default for Config {
    /// The configuration used while none has been saved: no inboxes, watchers
    /// running, thirty days of quarantine.
    fn default() -> (r: Self)
        ensures
            r.inbox_paths@.len() == 0,
            !r.pause_watchers,
            r.quarantine_retention_days == 30,
    {
        Config { inbox_paths: Vec::new(), pause_watchers: false, quarantine_retention_days: default_quarantine_days() }
    }
}

/// Which notifications are shown.
pub struct NotificationTypes {
    pub file_operations: bool,
    pub errors: bool,
    pub daily_summary: bool,
}

/// The application's preferences.
pub struct AppSettings {
    pub theme: String,
    pub compact_mode: bool,
    pub notifications_enabled: bool,
    pub notification_types: NotificationTypes,
    pub auto_start: bool,
    pub minimize_to_tray: bool,
    pub close_to_tray: bool,
    pub show_context_menu: bool,
    pub confirm_operations: bool,
    pub create_backups: bool,
    pub backup_location: String,
    pub max_backup_age_days: u32,
    pub max_concurrent_operations: u32,
    pub file_size_limit_mb: u32,
    pub enable_file_watching: bool,
    pub watch_interval_ms: u32,
    pub log_level: String,
    pub max_log_files: u32,
    pub enable_telemetry: bool,
}

impl Default for AppSettings {
    fn default() -> (r: Self)
        ensures
            r.theme@ == "system"@,
            !r.compact_mode,
            r.notifications_enabled,
            r.notification_types.file_operations,
            r.notification_types.errors,
            !r.notification_types.daily_summary,
            !r.auto_start,
            r.minimize_to_tray,
            !r.close_to_tray,
            r.show_context_menu,
            !r.confirm_operations,
            r.create_backups,
            r.backup_location@.len() == 0,
            r.max_backup_age_days == 30,
            r.max_concurrent_operations == 5,
            r.file_size_limit_mb == 1024,
            r.enable_file_watching,
            r.watch_interval_ms == 500,
            r.log_level@ == "info"@,
            r.max_log_files == 10,
            !r.enable_telemetry,
    {
        AppSettings {
            theme: to_owned("system"),
            compact_mode: false,
            notifications_enabled: true,
            notification_types: NotificationTypes { file_operations: true, errors: true, daily_summary: false },
            auto_start: false,
            minimize_to_tray: true,
            close_to_tray: false,
            show_context_menu: true,
            confirm_operations: false,
            create_backups: true,
            backup_location: String::new(),
            max_backup_age_days: 30,
            max_concurrent_operations: 5,
            file_size_limit_mb: 1024,
            enable_file_watching: true,
            watch_interval_ms: 500,
            log_level: to_owned("info"),
            max_log_files: 10,
            enable_telemetry: false,
        }
    }
}

/// How often and how patiently a failed file operation is retried.
pub struct RetryConfig {
    pub max_retries: usize,
    pub retry_delay_ms: u64,
    pub exponential_backoff: bool,
}

impl Default for RetryConfig {
    /// Three retries, starting one second apart, each wait twice the last.
    fn default() -> (r: Self)
        ensures
            r.max_retries == 3,
            r.retry_delay_ms == 1000,
            r.exponential_backoff,
    {
        RetryConfig { max_retries: 3, retry_delay_ms: 1000, exponential_backoff: true }
    }
}

/// When backups are taken and cleaned up.
pub struct BackupSchedule {
    pub enabled: bool,
    pub interval_hours: u32,
    pub cleanup_interval_hours: u32,
    pub max_backups_per_operation: u32,
}

/// The backup settings.
pub struct BackupConfig {
    pub enabled: bool,
    pub backup_location: String,
    pub max_backup_size_gb: u32,
    pub retention_days: u32,
    pub compress_backups: bool,
    pub encrypt_backups: bool,
    pub auto_cleanup: bool,
    pub backup_schedule: BackupSchedule,
}

/// The backup settings used while none have been saved, with backups kept at
/// `backup_location`: enabled, up to 10 GB kept for 30 days, compressed, not
/// encrypted, cleaned up automatically; no schedule, which would run daily
/// with a weekly clean-up and at most 5 backups per operation.
pub fn default_backup_config(backup_location: String) -> (r: BackupConfig)
    ensures
        r.enabled,
        r.backup_location@ == backup_location@,
        r.max_backup_size_gb == 10,
        r.retention_days == 30,
        r.compress_backups,
        !r.encrypt_backups,
        r.auto_cleanup,
        !r.backup_schedule.enabled,
        r.backup_schedule.interval_hours == 24,
        r.backup_schedule.cleanup_interval_hours == 168,
        r.backup_schedule.max_backups_per_operation == 5,
{
    BackupConfig {
        enabled: true,
        backup_location,
        max_backup_size_gb: 10,
        retention_days: 30,
        compress_backups: true,
        encrypt_backups: false,
        auto_cleanup: true,
        backup_schedule: BackupSchedule {
            enabled: false,
            interval_hours: 24,
            cleanup_interval_hours: 168,
            max_backups_per_operation: 5,
        },
    }
}

} // verus!

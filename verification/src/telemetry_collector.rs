//! The telemetry collector: the periodic "app active" signal.
//!
//! Every `ACTIVE_USAGE_DURATION_SECS` the app records that it was active if
//! there was any activity since the previous check. Nothing is flushed over
//! the network in this build. The scheduling and the recording stay with the
//! app; the collector decides whether to schedule and what is recorded.

use chrono::TimeZone;
use vstd::prelude::*;

use crate::auth::{uuid_hyphenated, AuthState, LOCAL_USER_ID};

verus! {

/// How often an "app active" signal may be recorded, in seconds.
pub const ACTIVE_USAGE_DURATION_SECS: i64 = 60;

/// Whether `secs` seconds after the Unix epoch is a date-time that chrono's
/// `Utc` time zone can represent: from January 1 of year -262143 at
/// 00:00:00 to December 31 of year 262142 at 23:59:59 (chrono's
/// `NaiveDate::MIN` and `NaiveDate::MAX`).
pub open spec fn utc_timestamp_in_range(secs: i64) -> bool {
    -8334601228800 <= secs <= 8210266876799
}

/// Calls `chrono::Utc.timestamp_opt(secs, 0)` and tells whether it gave a
/// single date-time. The contract claims what chrono's source shows: with no
/// nanoseconds, `LocalResult::Single` comes exactly when the day of `secs`
/// lies between `NaiveDate::MIN` and `NaiveDate::MAX`, and `LocalResult::None`
/// otherwise.
#[verifier::external_body]
fn utc_timestamp_exists(secs: i64) -> (r: bool)
    ensures
        r == utc_timestamp_in_range(secs),
{
    matches!(chrono::Utc.timestamp_opt(secs, 0), chrono::LocalResult::Single(_))
}

/// An "app active" signal to record.
#[derive(Clone, Debug, PartialEq)]
pub struct ActiveUsageEvent {
    /// The id of the user, if any.
    pub user_id: Option<String>,
    /// The anonymous id of this installation.
    pub anonymous_id: String,
    /// When the app was last active, in seconds since the Unix epoch.
    pub timestamp_secs: i64,
}

/// The app singleton that schedules the periodic telemetry tasks.
#[derive(Debug)]
pub struct TelemetryCollector {}

impl Default for TelemetryCollector {
    fn default() -> Self {
        Self::new()
    }
}

impl TelemetryCollector {
    pub fn new() -> Self {
        TelemetryCollector {  }
    }

    /// Whether the periodic "app active" signal is to be scheduled: only
    /// when recording app-active events is enabled, and only for release
    /// bundles or where sandbox telemetry is enabled.
    pub fn should_schedule_active_usage(
        record_app_active_events: bool,
        is_release_bundle: bool,
        with_sandbox_telemetry: bool,
    ) -> (r: bool)
        ensures
            r == (record_app_active_events && (is_release_bundle || with_sandbox_telemetry)),
    {
        record_app_active_events && (is_release_bundle || with_sandbox_telemetry)
    }

    /// What one run of the periodic task records: an "app active" signal
    /// when telemetry is enabled, the app was active less than
    /// `ACTIVE_USAGE_DURATION_SECS` before `now_secs`, and the time of that
    /// activity is a representable date-time; nothing otherwise.
    pub fn active_usage_event(
        auth_state: &AuthState,
        is_telemetry_enabled: bool,
        last_active_timestamp: i64,
        now_secs: i64,
    ) -> (r: Option<ActiveUsageEvent>)
        requires
            last_active_timestamp + ACTIVE_USAGE_DURATION_SECS <= i64::MAX,
        ensures
            r is Some <==> (is_telemetry_enabled && last_active_timestamp
                + ACTIVE_USAGE_DURATION_SECS > now_secs && utc_timestamp_in_range(
                last_active_timestamp,
            )),
            r matches Some(e) ==> {
                &&& e.timestamp_secs == last_active_timestamp
                &&& e.user_id matches Some(u) && u@ == LOCAL_USER_ID@
                &&& e.anonymous_id@ == uuid_hyphenated(auth_state@)
            },
    {
        if is_telemetry_enabled && last_active_timestamp + ACTIVE_USAGE_DURATION_SECS > now_secs {
            if utc_timestamp_exists(last_active_timestamp) {
                let user_id = match auth_state.user_id() {
                    Some(uid) => Some(uid.as_string()),
                    None => None,
                };
                return Some(
                    ActiveUsageEvent {
                        user_id,
                        anonymous_id: auth_state.anonymous_id(),
                        timestamp_secs: last_active_timestamp,
                    },
                );
            }
        }
        None
    }
}

} // verus!

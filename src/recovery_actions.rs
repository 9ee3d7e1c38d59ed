//! The update that records the action taken on a wallet recovery.

use vstd::prelude::*;
use time::format_description::well_known::Rfc3339;

verus! {

/// The earliest second that RFC 3339 can write: 0000-01-01T00:00:00Z.
pub const RFC3339_MIN_SECS: i64 = -62167219200;

/// The latest second that RFC 3339 can write: 9999-12-31T23:59:59Z.
pub const RFC3339_MAX_SECS: i64 = 253402300799;

/// The RFC 3339 text of a UTC time given in seconds since the Unix epoch.
pub uninterp spec fn rfc3339_text(unix_secs: i64) -> Seq<char>;

/// Relies on time's `OffsetDateTime::from_unix_timestamp` and on
/// `OffsetDateTime::format` with `Rfc3339`, which refuses years outside
/// 0 to 9999.
#[verifier::external_body]
fn format_rfc3339(unix_secs: i64) -> (r: Option<String>)
    ensures
        r is Some <==> RFC3339_MIN_SECS <= unix_secs <= RFC3339_MAX_SECS,
        r matches Some(s) ==> s@ == rfc3339_text(unix_secs),
{
    match time::OffsetDateTime::from_unix_timestamp(unix_secs) {
        Ok(t) => t.format(&Rfc3339).ok(),
        Err(_) => None,
    }
}

/// What to write for a recovery: the record's key (account and initiation
/// time) and the new values of the action and of the update time.
#[derive(Debug)]
pub struct RecoveryActionUpdate {
    pub account_id: String,
    pub initiation_time: String,
    pub recovery_action: String,
    pub updated_at: String,
}

/// A time that RFC 3339 cannot write.
#[derive(Clone, Copy, Debug, PartialEq, Eq, Structural)]
pub enum TimeOutOfRange {
    InitiationTime,
    UpdateTime,
}

pub open spec fn writable(unix_secs: i64) -> bool {
    RFC3339_MIN_SECS <= unix_secs <= RFC3339_MAX_SECS
}

/// Builds the update that sets `recovery_action` on the recovery that
/// `account_id` initiated at `initiation_time`, stamped with `now`.
pub fn update_recovery_action(
    account_id: String,
    initiation_time: i64,
    recovery_action: String,
    now: i64,
) -> (r: Result<RecoveryActionUpdate, TimeOutOfRange>)
    ensures
        !writable(initiation_time) ==> r == Err::<RecoveryActionUpdate, TimeOutOfRange>(
            TimeOutOfRange::InitiationTime,
        ),
        writable(initiation_time) && !writable(now) ==> r == Err::<RecoveryActionUpdate, TimeOutOfRange>(
            TimeOutOfRange::UpdateTime,
        ),
        writable(initiation_time) && writable(now) ==> (r matches Ok(u) && u.account_id == account_id
            && u.initiation_time@ == rfc3339_text(initiation_time) && u.recovery_action == recovery_action
            && u.updated_at@ == rfc3339_text(now)),
{
    let initiated = match format_rfc3339(initiation_time) {
        Some(s) => s,
        None => {
            return Err(TimeOutOfRange::InitiationTime);
        },
    };
    let updated_at = match format_rfc3339(now) {
        Some(s) => s,
        None => {
            return Err(TimeOutOfRange::UpdateTime);
        },
    };
    Ok(RecoveryActionUpdate { account_id, initiation_time: initiated, recovery_action, updated_at })
}

} // verus!

//! Writing an agent's action to the audit trail of its license.

use vstd::prelude::*;
use crate::clock::unix_timestamp;
use crate::error::{AioosError, Failure};
use crate::instructions::{refused, Effect};
use crate::state::{
    byte_len, stored_len, AuditEntry, AuditEntryView, Identity, LicenseAccount, LicenseAccountView,
};

verus! {

/// What a request to log an action names.
#[derive(Clone, Debug, PartialEq, Eq)]
pub struct LogAction {
    /// The record to fill with the new entry.
    pub audit_entry: AuditEntry,
    /// The license that the action is logged against.
    pub license: LicenseAccount,
    /// The address under which `license` is stored.
    pub license_key: Identity,
    /// The caller who answers for the action, who has to be the license's
    /// owner.
    pub owner: Identity,
    /// Who did the action. This may be the owner or someone else.
    pub actor: Identity,
    /// The part of the entry's storage address that is kept in it.
    pub audit_entry_bump: u8,
}

/// Announced when an action has been logged.
#[derive(Clone, Debug, PartialEq, Eq)]
pub struct ActionLogged {
    /// The agent that acted.
    pub agent_id: String,
    /// The kind of action.
    pub action: String,
    /// What was done.
    pub details: String,
    /// When it was logged, in seconds since the Unix epoch.
    pub timestamp: i64,
    /// Who did it.
    pub actor: Identity,
    /// The entry's place in the license's audit trail, counted from zero.
    pub audit_index: u64,
}

/// An `ActionLogged` as a mathematical value.
pub struct ActionLoggedView {
    pub agent_id: Seq<char>,
    pub action: Seq<char>,
    pub details: Seq<char>,
    pub timestamp: int,
    pub actor: Seq<u8>,
    pub audit_index: nat,
}

impl View for ActionLogged {
    type V = ActionLoggedView;

    open spec fn view(&self) -> ActionLoggedView {
        ActionLoggedView {
            agent_id: self.agent_id@,
            action: self.action@,
            details: self.details@,
            timestamp: self.timestamp as int,
            actor: self.actor@,
            audit_index: self.audit_index as nat,
        }
    }
}

/// What a served request to log an action brings: the new entry, and what
/// is announced.
pub struct Logged {
    pub entry: AuditEntryView,
    pub event: ActionLoggedView,
}

/// Why it is refused that `caller` logs an action against `license`, if it
/// is: only the owner may ask; then the action has to be within its bound,
/// then the details; and nothing is logged against a revoked license.
pub open spec fn log_refusal(
    license: LicenseAccountView,
    caller: Seq<u8>,
    action: Seq<char>,
    details: Seq<char>,
) -> Option<AioosError> {
    if !license.owned_by(caller) {
        Some(AioosError::Unauthorized)
    } else if byte_len(action) > AuditEntry::MAX_ACTION_LEN {
        Some(AioosError::ActionTooLong)
    } else if byte_len(details) > AuditEntry::MAX_DETAILS_LEN {
        Some(AioosError::DetailsTooLong)
    } else if license.revoked {
        Some(AioosError::LicenseRevoked)
    } else {
        None
    }
}

/// What it does to `license`, stored under `license_key`, that `caller`
/// asks at time `now` to log an action of `actor`. Where the request is not
/// refused, the new entry takes the place that the license's count of
/// entries gives, and the count grows by one; nothing else in the license
/// changes.
pub open spec fn log(
    license: LicenseAccountView,
    license_key: Seq<u8>,
    caller: Seq<u8>,
    actor: Seq<u8>,
    bump: u8,
    action: Seq<char>,
    details: Seq<char>,
    now: int,
) -> Effect<LicenseAccountView, Logged> {
    match log_refusal(license, caller, action, details) {
        Some(why) => refused(license, why),
        None => Effect {
            after: LicenseAccountView { audit_count: license.audit_count + 1, ..license },
            outcome: Ok(
                Logged {
                    entry: AuditEntryView {
                        license: license_key,
                        action,
                        details,
                        timestamp: now,
                        actor,
                        bump,
                    },
                    event: ActionLoggedView {
                        agent_id: license.agent_id,
                        action,
                        details,
                        timestamp: now,
                        actor,
                        audit_index: license.audit_count,
                    },
                },
            ),
        },
    }
}

/// Checks a request to log `action` with `details` against the license of
/// `ctx`, and changes nothing: the result is why the request is refused, or
/// `None` where it is served.
pub fn validate(ctx: &LogAction, action: &String, details: &String) -> (why: Option<AioosError>)
    ensures
        why == log_refusal(ctx.license@, ctx.owner@, action@, details@),
{
    if !ctx.license.is_owner(&ctx.owner) {
        return Some(AioosError::Unauthorized);
    }
    if stored_len(action) > AuditEntry::MAX_ACTION_LEN {
        return Some(AioosError::ActionTooLong);
    }
    if stored_len(details) > AuditEntry::MAX_DETAILS_LEN {
        return Some(AioosError::DetailsTooLong);
    }
    if ctx.license.revoked {
        return Some(AioosError::LicenseRevoked);
    }
    None
}

/// Writes the entry of a request that is not refused.
fn commit(ctx: &mut LogAction, action: String, details: String, now: i64) -> (event: ActionLogged)
    requires
        log_refusal(old(ctx).license@, old(ctx).owner@, action@, details@) is None,
        old(ctx).license.audit_count < u64::MAX,
    ensures
        final(ctx).license_key == old(ctx).license_key,
        final(ctx).owner == old(ctx).owner,
        final(ctx).actor == old(ctx).actor,
        final(ctx).audit_entry_bump == old(ctx).audit_entry_bump,
        log(
            old(ctx).license@,
            old(ctx).license_key@,
            old(ctx).owner@,
            old(ctx).actor@,
            old(ctx).audit_entry_bump,
            action@,
            details@,
            now as int,
        ) == (Effect::<LicenseAccountView, Logged> {
            after: final(ctx).license@,
            outcome: Ok(Logged { entry: final(ctx).audit_entry@, event: event@ }),
        }),
{
    let event = ActionLogged {
        agent_id: ctx.license.agent_id.clone(),
        action: action.clone(),
        details: details.clone(),
        timestamp: now,
        actor: ctx.actor,
        audit_index: ctx.license.audit_count,
    };
    ctx.audit_entry.license = ctx.license_key;
    ctx.audit_entry.action = action;
    ctx.audit_entry.details = details;
    ctx.audit_entry.timestamp = now;
    ctx.audit_entry.actor = ctx.actor;
    ctx.audit_entry.bump = ctx.audit_entry_bump;
    ctx.license.audit_count = ctx.license.audit_count.checked_add(1).unwrap();
    event
}

/// Logs an action against the license of `ctx` at the time `now`: fills the
/// entry of `ctx` and counts it in the license. Where the request is
/// refused, the entry of `ctx` stays as it is, as the license does.
///
/// The count of entries has to have room for one more where the request is
/// not refused.
pub fn handler_at(ctx: &mut LogAction, action: String, details: String, now: i64) -> (r: Result<
    ActionLogged,
    AioosError,
>)
    requires
        log_refusal(old(ctx).license@, old(ctx).owner@, action@, details@) is None ==> old(
            ctx,
        ).license.audit_count < u64::MAX,
    ensures
        final(ctx).license_key == old(ctx).license_key,
        final(ctx).owner == old(ctx).owner,
        final(ctx).actor == old(ctx).actor,
        final(ctx).audit_entry_bump == old(ctx).audit_entry_bump,
        ({
            let step = log(
                old(ctx).license@,
                old(ctx).license_key@,
                old(ctx).owner@,
                old(ctx).actor@,
                old(ctx).audit_entry_bump,
                action@,
                details@,
                now as int,
            );
            &&& final(ctx).license@ == step.after
            &&& match r {
                Ok(event) => step.outcome == Ok::<Logged, AioosError>(
                    Logged { entry: final(ctx).audit_entry@, event: event@ },
                ),
                Err(why) => {
                    &&& step.outcome == Err::<Logged, AioosError>(why)
                    &&& final(ctx).audit_entry@ == old(ctx).audit_entry@
                },
            }
        }),
        old(ctx).license@.well_formed() ==> final(ctx).license@.well_formed(),
        r is Ok ==> final(ctx).audit_entry@.well_formed(),
{
    if let Some(why) = validate(ctx, &action, &details) {
        return Err(why);
    }
    Ok(commit(ctx, action, details, now))
}

/// Logs an action against the license of `ctx`, stamped with the time that
/// the clock gives: fills the entry of `ctx` and counts it in the license.
///
/// A request that is refused is refused whatever the clock says; one that
/// is not refused is served as `handler_at` serves it at the time that the
/// entry is stamped with, unless the clock cannot be read. Where the
/// request is not served, the entry of `ctx` stays as it is, as the license
/// does.
///
/// The count of entries has to have room for one more where the request is
/// not refused.
pub fn handler(ctx: &mut LogAction, action: String, details: String) -> (r: Result<
    ActionLogged,
    Failure,
>)
    requires
        log_refusal(old(ctx).license@, old(ctx).owner@, action@, details@) is None ==> old(
            ctx,
        ).license.audit_count < u64::MAX,
    ensures
        final(ctx).license_key == old(ctx).license_key,
        final(ctx).owner == old(ctx).owner,
        final(ctx).actor == old(ctx).actor,
        final(ctx).audit_entry_bump == old(ctx).audit_entry_bump,
        match r {
            Ok(event) => log(
                old(ctx).license@,
                old(ctx).license_key@,
                old(ctx).owner@,
                old(ctx).actor@,
                old(ctx).audit_entry_bump,
                action@,
                details@,
                event@.timestamp,
            ) == (Effect::<LicenseAccountView, Logged> {
                after: final(ctx).license@,
                outcome: Ok(Logged { entry: final(ctx).audit_entry@, event: event@ }),
            }),
            Err(Failure::Refused(why)) => {
                &&& log_refusal(old(ctx).license@, old(ctx).owner@, action@, details@) == Some(why)
                &&& final(ctx).license@ == old(ctx).license@
                &&& final(ctx).audit_entry@ == old(ctx).audit_entry@
            },
            Err(Failure::ClockUnavailable(_)) => {
                &&& log_refusal(old(ctx).license@, old(ctx).owner@, action@, details@) is None
                &&& final(ctx).license@ == old(ctx).license@
                &&& final(ctx).audit_entry@ == old(ctx).audit_entry@
            },
        },
        old(ctx).license@.well_formed() ==> final(ctx).license@.well_formed(),
        r is Ok ==> final(ctx).audit_entry@.well_formed(),
{
    if let Some(why) = validate(ctx, &action, &details) {
        return Err(Failure::Refused(why));
    }
    match unix_timestamp() {
        Ok(now) => Ok(commit(ctx, action, details, now)),
        Err(why) => Err(Failure::ClockUnavailable(why)),
    }
}

/// A served request to log an action gives the new entry the place that
/// the license's count of entries had, and the count is then one more. The
/// entry points back at the license, and holds the action as it was handed
/// in, with its time and its actor.
pub proof fn log_takes_the_next_place(
    license: LicenseAccountView,
    license_key: Seq<u8>,
    caller: Seq<u8>,
    actor: Seq<u8>,
    bump: u8,
    action: Seq<char>,
    details: Seq<char>,
    now: int,
)
    requires
        log(license, license_key, caller, actor, bump, action, details, now).outcome is Ok,
    ensures
        ({
            let step = log(license, license_key, caller, actor, bump, action, details, now);
            &&& step.outcome->Ok_0.event.audit_index == license.audit_count
            &&& step.after.audit_count == license.audit_count + 1
            &&& step.after == LicenseAccountView { audit_count: step.after.audit_count, ..license }
            &&& step.outcome->Ok_0.entry == (AuditEntryView {
                license: license_key,
                action,
                details,
                timestamp: now,
                actor,
                bump,
            })
            &&& step.outcome->Ok_0.entry.well_formed()
        }),
{
}

/// One request to log an action, as it is made of a license by its caller.
pub struct LogRequest {
    pub actor: Seq<u8>,
    pub bump: u8,
    pub action: Seq<char>,
    pub details: Seq<char>,
    pub now: int,
}

/// What `request` does to `license`. This is `log` applied to the parts of `request`.
pub open spec fn log_request(
    license: LicenseAccountView,
    license_key: Seq<u8>,
    caller: Seq<u8>,
    request: LogRequest,
) -> Effect<LicenseAccountView, Logged> {
    log(
        license,
        license_key,
        caller,
        request.actor,
        request.bump,
        request.action,
        request.details,
        request.now,
    )
}

/// The license after `requests` were made of it one after the other.
pub open spec fn after_requests(
    license: LicenseAccountView,
    license_key: Seq<u8>,
    caller: Seq<u8>,
    requests: Seq<LogRequest>,
) -> LicenseAccountView
    decreases requests.len(),
{
    if requests.len() == 0 {
        license
    } else {
        log_request(
            after_requests(license, license_key, caller, requests.drop_last()),
            license_key,
            caller,
            requests.last(),
        ).after
    }
}

/// The places of the entries that were written as `requests` were made of
/// `license` one after the other, in the order in which they were written.
/// A refused request writes none.
pub open spec fn places_taken(
    license: LicenseAccountView,
    license_key: Seq<u8>,
    caller: Seq<u8>,
    requests: Seq<LogRequest>,
) -> Seq<nat>
    decreases requests.len(),
{
    if requests.len() == 0 {
        Seq::empty()
    } else {
        let earlier = places_taken(license, license_key, caller, requests.drop_last());
        match log_request(
            after_requests(license, license_key, caller, requests.drop_last()),
            license_key,
            caller,
            requests.last(),
        ).outcome {
            Ok(logged) => earlier.push(logged.event.audit_index),
            Err(_) => earlier,
        }
    }
}

/// The audit trail of a license has no gap and no repeat: whatever requests
/// are made of a license one after the other, the entries written take the
/// places from the license's count of entries on, each the next after the
/// one before, and the count ends that many higher. From a new license on
/// the places are 0, 1, 2 and so on.
pub proof fn places_are_taken_in_turn(
    license: LicenseAccountView,
    license_key: Seq<u8>,
    caller: Seq<u8>,
    requests: Seq<LogRequest>,
)
    ensures
        places_taken(license, license_key, caller, requests).len() <= requests.len(),
        forall|k: int|
            0 <= k < places_taken(license, license_key, caller, requests).len()
                ==> #[trigger] places_taken(license, license_key, caller, requests)[k]
                == license.audit_count + k,
        after_requests(license, license_key, caller, requests).audit_count
            == license.audit_count + places_taken(license, license_key, caller, requests).len(),
    decreases requests.len(),
{
    if requests.len() > 0 {
        places_are_taken_in_turn(license, license_key, caller, requests.drop_last());
    }
}

/// Where each of `requests` is one that the owner makes of a license that
/// is not revoked, with texts within their bounds, each is served: as many
/// entries are written as requests were made, at the places from the
/// license's count of entries on, and nothing but the count changes in the
/// license.
pub proof fn owner_requests_are_all_served(
    license: LicenseAccountView,
    license_key: Seq<u8>,
    caller: Seq<u8>,
    requests: Seq<LogRequest>,
)
    requires
        caller == license.owner,
        !license.revoked,
        forall|i: int|
            0 <= i < requests.len() ==> byte_len((#[trigger] requests[i]).action)
                <= AuditEntry::MAX_ACTION_LEN && byte_len(requests[i].details)
                <= AuditEntry::MAX_DETAILS_LEN,
    ensures
        places_taken(license, license_key, caller, requests) == Seq::new(
            requests.len(),
            |k: int| (license.audit_count + k) as nat,
        ),
        after_requests(license, license_key, caller, requests) == (LicenseAccountView {
            audit_count: license.audit_count + requests.len(),
            ..license
        }),
    decreases requests.len(),
{
    if requests.len() > 0 {
        owner_requests_are_all_served(license, license_key, caller, requests.drop_last());
    }
}

} // verus!

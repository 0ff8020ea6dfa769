//! What holds of a license over its whole life, whatever requests are made
//! of it: who may change it, what a revocation ends, and what never changes.

use vstd::prelude::*;
use crate::error::AioosError;
use crate::instructions::log_action::{log_refusal, log_request, LogRequest, Logged};
use crate::instructions::refused;
use crate::instructions::revoke_license::{revoke, revoke_refusal, LicenseRevokedView};
use crate::instructions::update_ptas_state::{
    transition, transition_refusal, PtasStateChangedView,
};
use crate::state::{byte_len, AuditEntry, LicenseAccountView, PtasState};

verus! {

/// A revoked license is closed to its owner: a request to move it, to any
/// target, and a request to log an action, with texts within their bounds,
/// are refused because the license is revoked, and the license stays as it
/// is.
pub proof fn revoked_license_refuses_its_owner(
    license: LicenseAccountView,
    license_key: Seq<u8>,
    caller: Seq<u8>,
    target: PtasState,
    request: LogRequest,
    now: int,
)
    requires
        license.revoked,
        caller == license.owner,
        byte_len(request.action) <= AuditEntry::MAX_ACTION_LEN,
        byte_len(request.details) <= AuditEntry::MAX_DETAILS_LEN,
    ensures
        transition_refusal(license, caller, target) == Some(AioosError::LicenseRevoked),
        transition(license, caller, target, now) == refused::<
            LicenseAccountView,
            PtasStateChangedView,
        >(license, AioosError::LicenseRevoked),
        log_refusal(license, caller, request.action, request.details) == Some(
            AioosError::LicenseRevoked,
        ),
        log_request(license, license_key, caller, request) == refused::<LicenseAccountView, Logged>(
            license,
            AioosError::LicenseRevoked,
        ),
{
}

/// Revocation is final: no request, by anyone, changes a revoked license
/// in any way. None is served but another revocation, which does nothing.
pub proof fn revoked_license_never_changes(
    license: LicenseAccountView,
    license_key: Seq<u8>,
    program_authority: Seq<u8>,
    caller: Seq<u8>,
    target: PtasState,
    request: LogRequest,
    now: int,
)
    requires
        license.revoked,
    ensures
        transition(license, caller, target, now).after == license,
        transition(license, caller, target, now).outcome is Err,
        log_request(license, license_key, caller, request).after == license,
        log_request(license, license_key, caller, request).outcome is Err,
        revoke(license, program_authority, caller, now).after == license,
        revoke(license, program_authority, caller, now).outcome == Ok::<
            Option<LicenseRevokedView>,
            AioosError,
        >(None),
{
}

/// Only a revocation revokes: a request to move a license or to log
/// against it, whoever makes it and whatever it asks for, leaves a license
/// that is not in `Revoked` out of it, and the mark that it is revoked as
/// it is.
pub proof fn only_revocation_revokes(
    license: LicenseAccountView,
    license_key: Seq<u8>,
    caller: Seq<u8>,
    target: PtasState,
    request: LogRequest,
    now: int,
)
    ensures
        transition(license, caller, target, now).after.revoked == license.revoked,
        log_request(license, license_key, caller, request).after.revoked == license.revoked,
        license.ptas_state != PtasState::Revoked ==> {
            &&& transition(license, caller, target, now).after.ptas_state != PtasState::Revoked
            &&& log_request(license, license_key, caller, request).after.ptas_state
                != PtasState::Revoked
        },
{
}

/// Only the owner moves a license or logs against it: such a request by
/// anyone else is refused as unauthorized, whatever else holds of it, and
/// the license stays as it is.
pub proof fn stranger_is_refused(
    license: LicenseAccountView,
    license_key: Seq<u8>,
    caller: Seq<u8>,
    target: PtasState,
    request: LogRequest,
    now: int,
)
    requires
        caller != license.owner,
    ensures
        transition_refusal(license, caller, target) == Some(AioosError::Unauthorized),
        transition(license, caller, target, now) == refused::<
            LicenseAccountView,
            PtasStateChangedView,
        >(license, AioosError::Unauthorized),
        log_refusal(license, caller, request.action, request.details) == Some(
            AioosError::Unauthorized,
        ),
        log_request(license, license_key, caller, request) == refused::<LicenseAccountView, Logged>(
            license,
            AioosError::Unauthorized,
        ),
{
}

/// The time only stamps: whether a request is refused, and why, does not
/// depend on the time at which it is made, nor does the license that it
/// leaves. A request is refused exactly when its refusal names a reason.
pub proof fn time_only_stamps(
    license: LicenseAccountView,
    license_key: Seq<u8>,
    program_authority: Seq<u8>,
    caller: Seq<u8>,
    target: PtasState,
    request: LogRequest,
    now: int,
    later: int,
)
    ensures
        ({
            let moved = transition(license, caller, target, now);
            let refusal = transition_refusal(license, caller, target);
            &&& moved.after == transition(license, caller, target, later).after
            &&& refusal matches Some(why) ==> moved.outcome == Err::<
                PtasStateChangedView,
                AioosError,
            >(why)
            &&& refusal is None ==> moved.outcome is Ok
        }),
        ({
            let logged = log_request(license, license_key, caller, request);
            let refusal = log_refusal(license, caller, request.action, request.details);
            &&& logged.after == log_request(
                license,
                license_key,
                caller,
                LogRequest { now: later, ..request },
            ).after
            &&& refusal matches Some(why) ==> logged.outcome == Err::<Logged, AioosError>(why)
            &&& refusal is None ==> logged.outcome is Ok
        }),
        ({
            let revoked = revoke(license, program_authority, caller, now);
            let refusal = revoke_refusal(license, program_authority, caller);
            &&& revoked.after == revoke(license, program_authority, caller, later).after
            &&& refusal matches Some(why) ==> revoked.outcome == Err::<
                Option<LicenseRevokedView>,
                AioosError,
            >(why)
            &&& refusal is None ==> revoked.outcome is Ok
        }),
{
}

/// A request that is refused changes nothing.
pub proof fn refused_request_changes_nothing(
    license: LicenseAccountView,
    license_key: Seq<u8>,
    program_authority: Seq<u8>,
    caller: Seq<u8>,
    target: PtasState,
    request: LogRequest,
    now: int,
)
    ensures
        transition(license, caller, target, now).outcome is Err ==> transition(
            license,
            caller,
            target,
            now,
        ).after == license,
        log_request(license, license_key, caller, request).outcome is Err ==> log_request(
            license,
            license_key,
            caller,
            request,
        ).after == license,
        revoke(license, program_authority, caller, now).outcome is Err ==> revoke(
            license,
            program_authority,
            caller,
            now,
        ).after == license,
{
}

/// Whether `after` is `before` but for what the requests may change: the
/// state, the mark that the license is revoked, and the count of audit
/// entries, which does not fall.
pub open spec fn same_registration(before: LicenseAccountView, after: LicenseAccountView) -> bool {
    &&& after == LicenseAccountView {
        ptas_state: after.ptas_state,
        revoked: after.revoked,
        audit_count: after.audit_count,
        ..before
    }
    &&& after.audit_count >= before.audit_count
}

/// Every request keeps a license well-formed and leaves what was
/// registered as it is: its texts, its owner, its token and its time of
/// registration never change, the count of audit entries never falls, and a
/// license that is revoked stays revoked.
pub proof fn requests_keep_the_license_sound(
    license: LicenseAccountView,
    license_key: Seq<u8>,
    program_authority: Seq<u8>,
    caller: Seq<u8>,
    target: PtasState,
    request: LogRequest,
    now: int,
)
    requires
        license.well_formed(),
    ensures
        ({
            let moved = transition(license, caller, target, now).after;
            let logged = log_request(license, license_key, caller, request).after;
            let revoked = revoke(license, program_authority, caller, now).after;
            &&& moved.well_formed() && logged.well_formed() && revoked.well_formed()
            &&& same_registration(license, moved)
            &&& same_registration(license, logged)
            &&& same_registration(license, revoked)
            &&& license.revoked ==> moved.revoked && logged.revoked && revoked.revoked
        }),
{
}

} // verus!

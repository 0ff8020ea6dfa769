//! Licensing of autonomous agents: license records, the lifecycle state
//! machine that gates an agent's operation, and the audit trail of its
//! actions.
//!
//! A request is served as one step: it is checked against the records it
//! names, and then either changes them and hands back what is to be
//! announced, or fails and changes nothing. The caller supplies the parties'
//! identities, which it has verified, and the records, which it stores. The
//! time comes from the chain's clock; each handler has a form that takes the
//! time from its caller instead.

use vstd::prelude::*;
use crate::error::{AioosError, Failure};
use crate::instructions::initialize::{bootstrap, Initialize};
use crate::instructions::log_action::{log, log_refusal, ActionLogged, LogAction, Logged};
use crate::instructions::register_license::{
    oversized_text, register, LicenseRegistered, RegisterLicense, Registered,
};
use crate::instructions::revoke_license::{
    revoke, revoke_refusal, LicenseRevoked, LicenseRevokedView, RevokeLicense,
};
use crate::instructions::update_ptas_state::{
    transition, transition_refusal, PtasStateChanged, PtasStateChangedView, UpdatePtasState,
};
use crate::instructions::Effect;
use crate::state::{LicenseAccountView, ProgramConfigView, PtasState};

mod clock;
pub mod error;
pub mod instructions;
pub mod lifecycle;
pub mod state;

verus! {

/// Sets up a deployment: the caller becomes its authority, and no license
/// is registered yet. It never fails.
pub fn initialize(ctx: &mut Initialize) -> (r: Result<(), AioosError>)
    ensures
        r is Ok,
        final(ctx).config@ == bootstrap(old(ctx).authority@, old(ctx).config_bump),
        final(ctx).authority == old(ctx).authority,
        final(ctx).config_bump == old(ctx).config_bump,
{
    instructions::initialize::handler(ctx)
}

/// Registers the license of an agent for its caller, dormant and stamped
/// with the time that the clock gives, and counts it in the deployment. It
/// is refused where a text is over its bound.
///
/// The count of licenses has to have room for one more where the request is
/// not refused.
pub fn register_license(
    ctx: &mut RegisterLicense,
    agent_id: String,
    license_type: String,
    permission_level: String,
    jurisdiction: String,
) -> (r: Result<LicenseRegistered, Failure>)
    requires
        oversized_text(agent_id@, license_type@, permission_level@, jurisdiction@) is None
            ==> old(ctx).config.total_licenses < u64::MAX,
    ensures
        final(ctx).nft_mint == old(ctx).nft_mint,
        final(ctx).owner == old(ctx).owner,
        final(ctx).license_bump == old(ctx).license_bump,
        match r {
            Ok(event) => register(
                old(ctx).config@,
                old(ctx).owner@,
                old(ctx).nft_mint@,
                old(ctx).license_bump,
                agent_id@,
                license_type@,
                permission_level@,
                jurisdiction@,
                final(ctx).license@.created_at,
            ) == (Effect::<ProgramConfigView, Registered> {
                after: final(ctx).config@,
                outcome: Ok(Registered { license: final(ctx).license@, event: event@ }),
            }),
            Err(Failure::Refused(why)) => {
                &&& oversized_text(agent_id@, license_type@, permission_level@, jurisdiction@)
                    == Some(why)
                &&& final(ctx).config@ == old(ctx).config@
                &&& final(ctx).license@ == old(ctx).license@
            },
            Err(Failure::ClockUnavailable(_)) => {
                &&& oversized_text(agent_id@, license_type@, permission_level@, jurisdiction@)
                    is None
                &&& final(ctx).config@ == old(ctx).config@
                &&& final(ctx).license@ == old(ctx).license@
            },
        },
        r is Ok ==> final(ctx).license@.well_formed(),
{
    instructions::register_license::handler(
        ctx,
        agent_id,
        license_type,
        permission_level,
        jurisdiction,
    )
}

/// Moves a license to `new_state`, if its owner asks and the state machine
/// allows it, and stamps the move with the time that the clock gives.
pub fn update_ptas_state(ctx: &mut UpdatePtasState, new_state: PtasState) -> (r: Result<
    PtasStateChanged,
    Failure,
>)
    ensures
        final(ctx).owner == old(ctx).owner,
        match r {
            Ok(event) => transition(
                old(ctx).license@,
                old(ctx).owner@,
                new_state,
                event@.timestamp,
            ) == (Effect::<LicenseAccountView, PtasStateChangedView> {
                after: final(ctx).license@,
                outcome: Ok(event@),
            }),
            Err(Failure::Refused(why)) => {
                &&& transition_refusal(old(ctx).license@, old(ctx).owner@, new_state) == Some(why)
                &&& final(ctx).license@ == old(ctx).license@
            },
            Err(Failure::ClockUnavailable(_)) => {
                &&& transition_refusal(old(ctx).license@, old(ctx).owner@, new_state) is None
                &&& final(ctx).license@ == old(ctx).license@
            },
        },
        old(ctx).license@.well_formed() ==> final(ctx).license@.well_formed(),
{
    instructions::update_ptas_state::handler(ctx, new_state)
}

/// Revokes a license for good, if its owner or the deployment's authority
/// asks, and stamps the revocation with the time that the clock gives. On a
/// license that is revoked already it does nothing, and succeeds.
pub fn revoke_license(ctx: &mut RevokeLicense) -> (r: Result<Option<LicenseRevoked>, Failure>)
    ensures
        final(ctx).config == old(ctx).config,
        final(ctx).authority == old(ctx).authority,
        match r {
            Ok(Some(event)) => revoke(
                old(ctx).license@,
                old(ctx).config@.authority,
                old(ctx).authority@,
                event@.timestamp,
            ) == (Effect::<LicenseAccountView, Option<LicenseRevokedView>> {
                after: final(ctx).license@,
                outcome: Ok(Some(event@)),
            }),
            Ok(None) => {
                &&& old(ctx).license.revoked
                &&& final(ctx).license@ == old(ctx).license@
            },
            Err(Failure::Refused(why)) => {
                &&& revoke_refusal(
                    old(ctx).license@,
                    old(ctx).config@.authority,
                    old(ctx).authority@,
                ) == Some(why)
                &&& final(ctx).license@ == old(ctx).license@
            },
            Err(Failure::ClockUnavailable(_)) => {
                &&& revoke_refusal(
                    old(ctx).license@,
                    old(ctx).config@.authority,
                    old(ctx).authority@,
                ) is None
                &&& !old(ctx).license.revoked
                &&& final(ctx).license@ == old(ctx).license@
            },
        },
        old(ctx).license@.well_formed() ==> final(ctx).license@.well_formed(),
{
    instructions::revoke_license::handler(ctx)
}

/// Writes an action of an agent to the audit trail of its license, stamped
/// with the time that the clock gives, if the license's owner asks, the
/// texts are within their bounds and the license is not revoked.
///
/// The count of entries has to have room for one more where the request is
/// not refused.
pub fn log_action(ctx: &mut LogAction, action: String, details: String) -> (r: Result<
    ActionLogged,
    Failure,
>)
    requires
        log_refusal(old(ctx).license@, old(ctx).owner@, action@, details@) is None ==> old(
            ctx,
        ).license.audit_count < u64::MAX,
    ensures
        final(ctx).license_key == old(ctx).license_key,
        final(ctx).owner == old(ctx).owner,
        final(ctx).actor == old(ctx).actor,
        final(ctx).audit_entry_bump == old(ctx).audit_entry_bump,
        match r {
            Ok(event) => log(
                old(ctx).license@,
                old(ctx).license_key@,
                old(ctx).owner@,
                old(ctx).actor@,
                old(ctx).audit_entry_bump,
                action@,
                details@,
                event@.timestamp,
            ) == (Effect::<LicenseAccountView, Logged> {
                after: final(ctx).license@,
                outcome: Ok(Logged { entry: final(ctx).audit_entry@, event: event@ }),
            }),
            Err(Failure::Refused(why)) => {
                &&& log_refusal(old(ctx).license@, old(ctx).owner@, action@, details@) == Some(why)
                &&& final(ctx).license@ == old(ctx).license@
                &&& final(ctx).audit_entry@ == old(ctx).audit_entry@
            },
            Err(Failure::ClockUnavailable(_)) => {
                &&& log_refusal(old(ctx).license@, old(ctx).owner@, action@, details@) is None
                &&& final(ctx).license@ == old(ctx).license@
                &&& final(ctx).audit_entry@ == old(ctx).audit_entry@
            },
        },
        old(ctx).license@.well_formed() ==> final(ctx).license@.well_formed(),
        r is Ok ==> final(ctx).audit_entry@.well_formed(),
{
    instructions::log_action::handler(ctx, action, details)
}

} // verus!

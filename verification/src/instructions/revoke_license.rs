//! Withdrawing a license for good: the kill switch.

use vstd::prelude::*;
use crate::clock::unix_timestamp;
use crate::error::{AioosError, Failure};
use crate::instructions::{refused, Effect};
use crate::state::{Identity, LicenseAccount, LicenseAccountView, ProgramConfig, PtasState};

verus! {

/// What a revocation names.
#[derive(Clone, Debug, PartialEq, Eq)]
pub struct RevokeLicense {
    /// The license to revoke.
    pub license: LicenseAccount,
    /// The deployment's configuration, which names its authority.
    pub config: ProgramConfig,
    /// The caller, who has to be the license's owner or the deployment's
    /// authority.
    pub authority: Identity,
}

/// Announced when a license has been revoked.
#[derive(Clone, Debug, PartialEq, Eq)]
pub struct LicenseRevoked {
    /// The agent whose license was revoked.
    pub agent_id: String,
    /// Who revoked it.
    pub revoked_by: Identity,
    /// The state that the license was in before.
    pub previous_state: PtasState,
    /// When it was revoked, in seconds since the Unix epoch.
    pub timestamp: i64,
}

/// A `LicenseRevoked` as a mathematical value.
pub struct LicenseRevokedView {
    pub agent_id: Seq<char>,
    pub revoked_by: Seq<u8>,
    pub previous_state: PtasState,
    pub timestamp: int,
}

impl View for LicenseRevoked {
    type V = LicenseRevokedView;

    open spec fn view(&self) -> LicenseRevokedView {
        LicenseRevokedView {
            agent_id: self.agent_id@,
            revoked_by: self.revoked_by@,
            previous_state: self.previous_state,
            timestamp: self.timestamp as int,
        }
    }
}

/// Why it is refused that `caller` revokes `license` in a deployment under
/// `program_authority`, if it is: a license that is not revoked yet is
/// revoked by its owner or by the authority only. On a license that is
/// revoked already nobody is refused.
pub open spec fn revoke_refusal(
    license: LicenseAccountView,
    program_authority: Seq<u8>,
    caller: Seq<u8>,
) -> Option<AioosError> {
    if !license.revoked && !license.revocable_by(program_authority, caller) {
        Some(AioosError::Unauthorized)
    } else {
        None
    }
}

/// What it does to `license` that `caller` asks at time `now` to revoke it.
/// Where the request is not refused: on a license that is revoked already
/// it does and announces nothing; else the license is marked revoked and
/// put in the state `Revoked`, nothing else in it changes, and the
/// revocation is announced.
pub open spec fn revoke(
    license: LicenseAccountView,
    program_authority: Seq<u8>,
    caller: Seq<u8>,
    now: int,
) -> Effect<LicenseAccountView, Option<LicenseRevokedView>> {
    match revoke_refusal(license, program_authority, caller) {
        Some(why) => refused(license, why),
        None => if license.revoked {
            Effect { after: license, outcome: Ok(None) }
        } else {
            Effect {
                after: LicenseAccountView {
                    ptas_state: PtasState::Revoked,
                    revoked: true,
                    ..license
                },
                outcome: Ok(
                    Some(
                        LicenseRevokedView {
                            agent_id: license.agent_id,
                            revoked_by: caller,
                            previous_state: license.ptas_state,
                            timestamp: now,
                        },
                    ),
                ),
            }
        },
    }
}

/// Checks a request to revoke the license of `ctx`, and changes nothing:
/// the result is why the request is refused, or `None` where it is not.
pub fn validate(ctx: &RevokeLicense) -> (why: Option<AioosError>)
    ensures
        why == revoke_refusal(ctx.license@, ctx.config@.authority, ctx.authority@),
{
    if ctx.license.revoked {
        return None;
    }
    if !ctx.license.is_owner_or_authority(&ctx.config, &ctx.authority) {
        return Some(AioosError::Unauthorized);
    }
    None
}

/// Revokes a license that is not revoked yet, on a request that is not
/// refused.
fn commit(ctx: &mut RevokeLicense, now: i64) -> (event: LicenseRevoked)
    requires
        !old(ctx).license.revoked,
        revoke_refusal(old(ctx).license@, old(ctx).config@.authority, old(ctx).authority@) is None,
    ensures
        final(ctx).config == old(ctx).config,
        final(ctx).authority == old(ctx).authority,
        revoke(old(ctx).license@, old(ctx).config@.authority, old(ctx).authority@, now as int) == (
        Effect::<LicenseAccountView, Option<LicenseRevokedView>> {
            after: final(ctx).license@,
            outcome: Ok(Some(event@)),
        }),
{
    let previous_state = ctx.license.ptas_state;
    ctx.license.ptas_state = PtasState::Revoked;
    ctx.license.revoked = true;
    LicenseRevoked {
        agent_id: ctx.license.agent_id.clone(),
        revoked_by: ctx.authority,
        previous_state,
        timestamp: now,
    }
}

/// Revokes the license of `ctx` at the time `now`. The result holds what is
/// to be announced: nothing, where the license was revoked already.
pub fn handler_at(ctx: &mut RevokeLicense, now: i64) -> (r: Result<
    Option<LicenseRevoked>,
    AioosError,
>)
    ensures
        final(ctx).config == old(ctx).config,
        final(ctx).authority == old(ctx).authority,
        ({
            let step = revoke(
                old(ctx).license@,
                old(ctx).config@.authority,
                old(ctx).authority@,
                now as int,
            );
            &&& final(ctx).license@ == step.after
            &&& match r {
                Ok(Some(event)) => step.outcome == Ok::<Option<LicenseRevokedView>, AioosError>(
                    Some(event@),
                ),
                Ok(None) => step.outcome == Ok::<Option<LicenseRevokedView>, AioosError>(None),
                Err(why) => step.outcome == Err::<Option<LicenseRevokedView>, AioosError>(why),
            }
        }),
        old(ctx).license@.well_formed() ==> final(ctx).license@.well_formed(),
{
    if let Some(why) = validate(ctx) {
        return Err(why);
    }
    if ctx.license.revoked {
        return Ok(None);
    }
    Ok(Some(commit(ctx, now)))
}

/// Revokes the license of `ctx`, and stamps the revocation with the time
/// that the clock gives. The result holds what is to be announced: nothing,
/// where the license was revoked already.
///
/// A request that is refused is refused whatever the clock says, and on a
/// license that is revoked already the clock is not asked; any other
/// request is served as `handler_at` serves it at the time that the
/// revocation is announced with, unless the clock cannot be read.
pub fn handler(ctx: &mut RevokeLicense) -> (r: Result<Option<LicenseRevoked>, Failure>)
    ensures
        final(ctx).config == old(ctx).config,
        final(ctx).authority == old(ctx).authority,
        match r {
            Ok(Some(event)) => revoke(
                old(ctx).license@,
                old(ctx).config@.authority,
                old(ctx).authority@,
                event@.timestamp,
            ) == (Effect::<LicenseAccountView, Option<LicenseRevokedView>> {
                after: final(ctx).license@,
                outcome: Ok(Some(event@)),
            }),
            Ok(None) => {
                &&& old(ctx).license.revoked
                &&& final(ctx).license@ == old(ctx).license@
            },
            Err(Failure::Refused(why)) => {
                &&& revoke_refusal(
                    old(ctx).license@,
                    old(ctx).config@.authority,
                    old(ctx).authority@,
                ) == Some(why)
                &&& final(ctx).license@ == old(ctx).license@
            },
            Err(Failure::ClockUnavailable(_)) => {
                &&& revoke_refusal(
                    old(ctx).license@,
                    old(ctx).config@.authority,
                    old(ctx).authority@,
                ) is None
                &&& !old(ctx).license.revoked
                &&& final(ctx).license@ == old(ctx).license@
            },
        },
        old(ctx).license@.well_formed() ==> final(ctx).license@.well_formed(),
{
    if let Some(why) = validate(ctx) {
        return Err(Failure::Refused(why));
    }
    if ctx.license.revoked {
        return Ok(None);
    }
    match unix_timestamp() {
        Ok(now) => Ok(Some(commit(ctx, now))),
        Err(why) => Err(Failure::ClockUnavailable(why)),
    }
}

/// Revoking is idempotent: once a revocation was served, another one, by
/// anyone at any time, is served too, announces nothing, and leaves the
/// license as the first one left it.
pub proof fn revoke_again_does_nothing(
    license: LicenseAccountView,
    program_authority: Seq<u8>,
    first_caller: Seq<u8>,
    first_time: int,
    second_caller: Seq<u8>,
    second_time: int,
)
    requires
        revoke(license, program_authority, first_caller, first_time).outcome is Ok,
    ensures
        ({
            let once = revoke(license, program_authority, first_caller, first_time).after;
            revoke(once, program_authority, second_caller, second_time) == (Effect::<
                LicenseAccountView,
                Option<LicenseRevokedView>,
            > { after: once, outcome: Ok(None) })
        }),
{
}

/// A revocation that is served leaves the license revoked and in the state
/// `Revoked`; it is announced exactly when the license was not revoked
/// before, and then with the state that the license was in.
pub proof fn revoke_reaches_revoked(
    license: LicenseAccountView,
    program_authority: Seq<u8>,
    caller: Seq<u8>,
    now: int,
)
    requires
        license.revoked <==> license.ptas_state == PtasState::Revoked,
        revoke(license, program_authority, caller, now).outcome is Ok,
    ensures
        revoke(license, program_authority, caller, now).after == (LicenseAccountView {
            ptas_state: PtasState::Revoked,
            revoked: true,
            ..license
        }),
        revoke(license, program_authority, caller, now).outcome->Ok_0 is Some <==> !license.revoked,
        !license.revoked ==> revoke(license, program_authority, caller, now).outcome->Ok_0
            == Some(
            LicenseRevokedView {
                agent_id: license.agent_id,
                revoked_by: caller,
                previous_state: license.ptas_state,
                timestamp: now,
            },
        ),
{
}

/// Who is neither the owner of a license nor the deployment's authority
/// cannot revoke it: where the license is not revoked yet, the request is
/// refused as unauthorized and the license stays as it is.
pub proof fn stranger_cannot_revoke(
    license: LicenseAccountView,
    program_authority: Seq<u8>,
    caller: Seq<u8>,
    now: int,
)
    requires
        !license.revoked,
        caller != license.owner,
        caller != program_authority,
    ensures
        revoke_refusal(license, program_authority, caller) == Some(AioosError::Unauthorized),
        revoke(license, program_authority, caller, now) == refused::<
            LicenseAccountView,
            Option<LicenseRevokedView>,
        >(license, AioosError::Unauthorized),
{
}

} // verus!

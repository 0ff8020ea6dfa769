//! Registering the license of an agent.

use vstd::prelude::*;
use crate::clock::unix_timestamp;
use crate::error::{AioosError, Failure};
use crate::instructions::{refused, Effect};
use crate::state::{
    byte_len, stored_len, Identity, LicenseAccount, LicenseAccountView, ProgramConfig,
    ProgramConfigView, PtasState,
};

verus! {

/// What a registration names.
#[derive(Clone, Debug, PartialEq, Eq)]
pub struct RegisterLicense {
    /// The record to fill with the new license. That none exists yet for
    /// the agent is seen to where records are stored.
    pub license: LicenseAccount,
    /// The deployment's configuration, which counts the licenses.
    pub config: ProgramConfig,
    /// The token, issued elsewhere, that the license stands for.
    pub nft_mint: Identity,
    /// The caller, who becomes the license's owner. Anyone may register.
    pub owner: Identity,
    /// The part of the license's storage address that is kept in it.
    pub license_bump: u8,
}

/// Announced when a license has been registered.
#[derive(Clone, Debug, PartialEq, Eq)]
pub struct LicenseRegistered {
    /// The agent that the license is for.
    pub agent_id: String,
    /// Who controls the license.
    pub owner: Identity,
    /// The token that the license stands for.
    pub nft_mint: Identity,
    /// The kind of license.
    pub license_type: String,
    /// What the agent may do by itself.
    pub permission_level: String,
}

/// A `LicenseRegistered` as a mathematical value.
pub struct LicenseRegisteredView {
    pub agent_id: Seq<char>,
    pub owner: Seq<u8>,
    pub nft_mint: Seq<u8>,
    pub license_type: Seq<char>,
    pub permission_level: Seq<char>,
}

impl View for LicenseRegistered {
    type V = LicenseRegisteredView;

    open spec fn view(&self) -> LicenseRegisteredView {
        LicenseRegisteredView {
            agent_id: self.agent_id@,
            owner: self.owner@,
            nft_mint: self.nft_mint@,
            license_type: self.license_type@,
            permission_level: self.permission_level@,
        }
    }
}

/// What a served registration brings: the new license, and what is
/// announced.
pub struct Registered {
    pub license: LicenseAccountView,
    pub event: LicenseRegisteredView,
}

/// The first of the four texts of a registration that is over its bound, as
/// the error that names it; `None` where each is within its bound.
pub open spec fn oversized_text(
    agent_id: Seq<char>,
    license_type: Seq<char>,
    permission_level: Seq<char>,
    jurisdiction: Seq<char>,
) -> Option<AioosError> {
    if byte_len(agent_id) > LicenseAccount::MAX_AGENT_ID_LEN {
        Some(AioosError::AgentIdTooLong)
    } else if byte_len(license_type) > LicenseAccount::MAX_LICENSE_TYPE_LEN {
        Some(AioosError::LicenseTypeTooLong)
    } else if byte_len(permission_level) > LicenseAccount::MAX_PERMISSION_LEVEL_LEN {
        Some(AioosError::PermissionLevelTooLong)
    } else if byte_len(jurisdiction) > LicenseAccount::MAX_JURISDICTION_LEN {
        Some(AioosError::JurisdictionTooLong)
    } else {
        None
    }
}

/// What it does to the configuration `config` that `owner` registers at
/// time `now` a license for the token `nft_mint`. Each text has to be within
/// its bound. The new license is dormant, not revoked and has no audit entry
/// yet, and the count of licenses grows by one.
pub open spec fn register(
    config: ProgramConfigView,
    owner: Seq<u8>,
    nft_mint: Seq<u8>,
    bump: u8,
    agent_id: Seq<char>,
    license_type: Seq<char>,
    permission_level: Seq<char>,
    jurisdiction: Seq<char>,
    now: int,
) -> Effect<ProgramConfigView, Registered> {
    match oversized_text(agent_id, license_type, permission_level, jurisdiction) {
        Some(why) => refused(config, why),
        None => Effect {
            after: ProgramConfigView { total_licenses: config.total_licenses + 1, ..config },
            outcome: Ok(
                Registered {
                    license: LicenseAccountView {
                        agent_id,
                        owner,
                        nft_mint,
                        ptas_state: PtasState::Dormant,
                        license_type,
                        permission_level,
                        jurisdiction,
                        created_at: now,
                        revoked: false,
                        audit_count: 0,
                        bump,
                    },
                    event: LicenseRegisteredView {
                        agent_id,
                        owner,
                        nft_mint,
                        license_type,
                        permission_level,
                    },
                },
            ),
        },
    }
}

/// Checks the four texts of a registration against their bounds: the
/// result is the error for the first that is over its bound, or `None`
/// where each is within its bound.
pub fn validate(
    agent_id: &String,
    license_type: &String,
    permission_level: &String,
    jurisdiction: &String,
) -> (why: Option<AioosError>)
    ensures
        why == oversized_text(agent_id@, license_type@, permission_level@, jurisdiction@),
{
    if stored_len(agent_id) > LicenseAccount::MAX_AGENT_ID_LEN {
        return Some(AioosError::AgentIdTooLong);
    }
    if stored_len(license_type) > LicenseAccount::MAX_LICENSE_TYPE_LEN {
        return Some(AioosError::LicenseTypeTooLong);
    }
    if stored_len(permission_level) > LicenseAccount::MAX_PERMISSION_LEVEL_LEN {
        return Some(AioosError::PermissionLevelTooLong);
    }
    if stored_len(jurisdiction) > LicenseAccount::MAX_JURISDICTION_LEN {
        return Some(AioosError::JurisdictionTooLong);
    }
    None
}

/// Writes the license of a registration that is not refused.
fn commit(
    ctx: &mut RegisterLicense,
    agent_id: String,
    license_type: String,
    permission_level: String,
    jurisdiction: String,
    now: i64,
) -> (event: LicenseRegistered)
    requires
        oversized_text(agent_id@, license_type@, permission_level@, jurisdiction@) is None,
        old(ctx).config.total_licenses < u64::MAX,
    ensures
        final(ctx).nft_mint == old(ctx).nft_mint,
        final(ctx).owner == old(ctx).owner,
        final(ctx).license_bump == old(ctx).license_bump,
        register(
            old(ctx).config@,
            old(ctx).owner@,
            old(ctx).nft_mint@,
            old(ctx).license_bump,
            agent_id@,
            license_type@,
            permission_level@,
            jurisdiction@,
            now as int,
        ) == (Effect::<ProgramConfigView, Registered> {
            after: final(ctx).config@,
            outcome: Ok(Registered { license: final(ctx).license@, event: event@ }),
        }),
{
    let event = LicenseRegistered {
        agent_id: agent_id.clone(),
        owner: ctx.owner,
        nft_mint: ctx.nft_mint,
        license_type: license_type.clone(),
        permission_level: permission_level.clone(),
    };
    ctx.license.agent_id = agent_id;
    ctx.license.owner = ctx.owner;
    ctx.license.nft_mint = ctx.nft_mint;
    ctx.license.ptas_state = PtasState::Dormant;
    ctx.license.license_type = license_type;
    ctx.license.permission_level = permission_level;
    ctx.license.jurisdiction = jurisdiction;
    ctx.license.created_at = now;
    ctx.license.revoked = false;
    ctx.license.audit_count = 0;
    ctx.license.bump = ctx.license_bump;
    ctx.config.total_licenses = ctx.config.total_licenses.checked_add(1).unwrap();
    event
}

/// Registers a license at the time `now`: fills the license of `ctx` and
/// counts it in the configuration. Where the request is refused, the
/// license of `ctx` stays as it is, as the configuration does.
///
/// The count of licenses has to have room for one more where the request is
/// not refused.
pub fn handler_at(
    ctx: &mut RegisterLicense,
    agent_id: String,
    license_type: String,
    permission_level: String,
    jurisdiction: String,
    now: i64,
) -> (r: Result<LicenseRegistered, AioosError>)
    requires
        oversized_text(agent_id@, license_type@, permission_level@, jurisdiction@) is None
            ==> old(ctx).config.total_licenses < u64::MAX,
    ensures
        final(ctx).nft_mint == old(ctx).nft_mint,
        final(ctx).owner == old(ctx).owner,
        final(ctx).license_bump == old(ctx).license_bump,
        ({
            let step = register(
                old(ctx).config@,
                old(ctx).owner@,
                old(ctx).nft_mint@,
                old(ctx).license_bump,
                agent_id@,
                license_type@,
                permission_level@,
                jurisdiction@,
                now as int,
            );
            &&& final(ctx).config@ == step.after
            &&& match r {
                Ok(event) => step.outcome == Ok::<Registered, AioosError>(
                    Registered { license: final(ctx).license@, event: event@ },
                ),
                Err(why) => {
                    &&& step.outcome == Err::<Registered, AioosError>(why)
                    &&& final(ctx).license@ == old(ctx).license@
                },
            }
        }),
        r is Ok ==> final(ctx).license@.well_formed(),
{
    if let Some(why) = validate(&agent_id, &license_type, &permission_level, &jurisdiction) {
        return Err(why);
    }
    Ok(commit(ctx, agent_id, license_type, permission_level, jurisdiction, now))
}

/// Registers a license, stamped with the time that the clock gives: fills
/// the license of `ctx` and counts it in the configuration.
///
/// A request that is refused is refused whatever the clock says; one that
/// is not refused is served as `handler_at` serves it at the time that the
/// license is stamped with, unless the clock cannot be read. Where the
/// request is not served, the license of `ctx` stays as it is, as the
/// configuration does.
///
/// The count of licenses has to have room for one more where the request is
/// not refused.
pub fn handler(
    ctx: &mut RegisterLicense,
    agent_id: String,
    license_type: String,
    permission_level: String,
    jurisdiction: String,
) -> (r: Result<LicenseRegistered, Failure>)
    requires
        oversized_text(agent_id@, license_type@, permission_level@, jurisdiction@) is None
            ==> old(ctx).config.total_licenses < u64::MAX,
    ensures
        final(ctx).nft_mint == old(ctx).nft_mint,
        final(ctx).owner == old(ctx).owner,
        final(ctx).license_bump == old(ctx).license_bump,
        match r {
            Ok(event) => register(
                old(ctx).config@,
                old(ctx).owner@,
                old(ctx).nft_mint@,
                old(ctx).license_bump,
                agent_id@,
                license_type@,
                permission_level@,
                jurisdiction@,
                final(ctx).license@.created_at,
            ) == (Effect::<ProgramConfigView, Registered> {
                after: final(ctx).config@,
                outcome: Ok(Registered { license: final(ctx).license@, event: event@ }),
            }),
            Err(Failure::Refused(why)) => {
                &&& oversized_text(agent_id@, license_type@, permission_level@, jurisdiction@)
                    == Some(why)
                &&& final(ctx).config@ == old(ctx).config@
                &&& final(ctx).license@ == old(ctx).license@
            },
            Err(Failure::ClockUnavailable(_)) => {
                &&& oversized_text(agent_id@, license_type@, permission_level@, jurisdiction@)
                    is None
                &&& final(ctx).config@ == old(ctx).config@
                &&& final(ctx).license@ == old(ctx).license@
            },
        },
        r is Ok ==> final(ctx).license@.well_formed(),
{
    if let Some(why) = validate(&agent_id, &license_type, &permission_level, &jurisdiction) {
        return Err(Failure::Refused(why));
    }
    match unix_timestamp() {
        Ok(now) => Ok(commit(ctx, agent_id, license_type, permission_level, jurisdiction, now)),
        Err(why) => Err(Failure::ClockUnavailable(why)),
    }
}

/// A registration is refused exactly when one of its texts is over its
/// bound. The configuration then stays as it is.
pub proof fn registration_is_refused_for_oversized_text(
    config: ProgramConfigView,
    owner: Seq<u8>,
    nft_mint: Seq<u8>,
    bump: u8,
    agent_id: Seq<char>,
    license_type: Seq<char>,
    permission_level: Seq<char>,
    jurisdiction: Seq<char>,
    now: int,
)
    ensures
        ({
            let step = register(
                config,
                owner,
                nft_mint,
                bump,
                agent_id,
                license_type,
                permission_level,
                jurisdiction,
                now,
            );
            &&& match oversized_text(agent_id, license_type, permission_level, jurisdiction) {
                Some(why) => step.outcome == Err::<Registered, AioosError>(why),
                None => step.outcome is Ok,
            }
            &&& step.outcome is Err <==> {
                ||| byte_len(agent_id) > LicenseAccount::MAX_AGENT_ID_LEN
                ||| byte_len(license_type) > LicenseAccount::MAX_LICENSE_TYPE_LEN
                ||| byte_len(permission_level) > LicenseAccount::MAX_PERMISSION_LEVEL_LEN
                ||| byte_len(jurisdiction) > LicenseAccount::MAX_JURISDICTION_LEN
            }
            &&& step.outcome is Err ==> step.after == config
        }),
{
}

/// A served registration counts once: the count of licenses is one more
/// than before and the authority is who it was. The new license is
/// well-formed, dormant, not revoked, without audit entries, stamped with
/// the time of the registration, and owned by the caller.
pub proof fn registration_counts_once(
    config: ProgramConfigView,
    owner: Seq<u8>,
    nft_mint: Seq<u8>,
    bump: u8,
    agent_id: Seq<char>,
    license_type: Seq<char>,
    permission_level: Seq<char>,
    jurisdiction: Seq<char>,
    now: int,
)
    requires
        register(
            config,
            owner,
            nft_mint,
            bump,
            agent_id,
            license_type,
            permission_level,
            jurisdiction,
            now,
        ).outcome is Ok,
    ensures
        ({
            let step = register(
                config,
                owner,
                nft_mint,
                bump,
                agent_id,
                license_type,
                permission_level,
                jurisdiction,
                now,
            );
            let license = step.outcome->Ok_0.license;
            &&& step.after.total_licenses == config.total_licenses + 1
            &&& step.after.authority == config.authority
            &&& license.well_formed()
            &&& license.ptas_state == PtasState::Dormant
            &&& !license.revoked
            &&& license.audit_count == 0
            &&& license.created_at == now
            &&& license.owner == owner
            &&& license.nft_mint == nft_mint
            &&& license.agent_id == agent_id
        }),
{
}

} // verus!

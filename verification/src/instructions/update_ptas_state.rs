//! Moving a license through its lifecycle.

use vstd::prelude::*;
use crate::clock::unix_timestamp;
use crate::error::{AioosError, Failure};
use crate::instructions::{refused, Effect};
use crate::state::{legal_edges, LicenseAccount, LicenseAccountView, Identity, PtasState};

verus! {

/// What a request to move a license names.
#[derive(Clone, Debug, PartialEq, Eq)]
pub struct UpdatePtasState {
    /// The license to move.
    pub license: LicenseAccount,
    /// The caller, who has to be the license's owner.
    pub owner: Identity,
}

/// Announced when a license has moved to another state.
#[derive(Clone, Debug, PartialEq, Eq)]
pub struct PtasStateChanged {
    /// The agent whose license moved.
    pub agent_id: String,
    /// The state it left.
    pub old_state: PtasState,
    /// The state it is in now.
    pub new_state: PtasState,
    /// When it moved, in seconds since the Unix epoch.
    pub timestamp: i64,
}

/// A `PtasStateChanged` as a mathematical value.
pub struct PtasStateChangedView {
    pub agent_id: Seq<char>,
    pub old_state: PtasState,
    pub new_state: PtasState,
    pub timestamp: int,
}

impl View for PtasStateChanged {
    type V = PtasStateChangedView;

    open spec fn view(&self) -> PtasStateChangedView {
        PtasStateChangedView {
            agent_id: self.agent_id@,
            old_state: self.old_state,
            new_state: self.new_state,
            timestamp: self.timestamp as int,
        }
    }
}

/// Why it is refused that `caller` moves `license` to `target`, if it is:
/// only the owner may ask; a revoked license moves no more; `Revoked` is no
/// target, and any other has to follow the current state by an edge of the
/// state machine.
pub open spec fn transition_refusal(
    license: LicenseAccountView,
    caller: Seq<u8>,
    target: PtasState,
) -> Option<AioosError> {
    if !license.owned_by(caller) {
        Some(AioosError::Unauthorized)
    } else if license.revoked {
        Some(AioosError::LicenseRevoked)
    } else if target == PtasState::Revoked || !legal_edges().contains((license.ptas_state, target)) {
        Some(AioosError::InvalidStateTransition)
    } else {
        None
    }
}

/// What it does to `license` that `caller` asks at time `now` to move it to
/// `target`. Where the request is not refused, the license is then in the
/// state `target`, nothing else in it changes, and the move is announced.
pub open spec fn transition(
    license: LicenseAccountView,
    caller: Seq<u8>,
    target: PtasState,
    now: int,
) -> Effect<LicenseAccountView, PtasStateChangedView> {
    match transition_refusal(license, caller, target) {
        Some(why) => refused(license, why),
        None => Effect {
            after: LicenseAccountView { ptas_state: target, ..license },
            outcome: Ok(
                PtasStateChangedView {
                    agent_id: license.agent_id,
                    old_state: license.ptas_state,
                    new_state: target,
                    timestamp: now,
                },
            ),
        },
    }
}

/// Checks a request to move the license of `ctx` to `new_state`, and
/// changes nothing: the result is why the request is refused, or `None`
/// where it is not.
pub fn validate(ctx: &UpdatePtasState, new_state: PtasState) -> (why: Option<AioosError>)
    ensures
        why == transition_refusal(ctx.license@, ctx.owner@, new_state),
{
    if !ctx.license.is_owner(&ctx.owner) {
        return Some(AioosError::Unauthorized);
    }
    if ctx.license.revoked {
        return Some(AioosError::LicenseRevoked);
    }
    if new_state == PtasState::Revoked {
        return Some(AioosError::InvalidStateTransition);
    }
    if !ctx.license.ptas_state.can_transition_to(&new_state) {
        return Some(AioosError::InvalidStateTransition);
    }
    None
}

/// Makes a move that is not refused.
fn commit(ctx: &mut UpdatePtasState, new_state: PtasState, now: i64) -> (event: PtasStateChanged)
    requires
        transition_refusal(old(ctx).license@, old(ctx).owner@, new_state) is None,
    ensures
        final(ctx).owner == old(ctx).owner,
        transition(old(ctx).license@, old(ctx).owner@, new_state, now as int) == (Effect::<
            LicenseAccountView,
            PtasStateChangedView,
        > { after: final(ctx).license@, outcome: Ok(event@) }),
{
    let old_state = ctx.license.ptas_state;
    ctx.license.ptas_state = new_state;
    PtasStateChanged { agent_id: ctx.license.agent_id.clone(), old_state, new_state, timestamp: now }
}

/// Moves the license of `ctx` to `new_state` at the time `now`, if its
/// owner asks and the state machine allows it.
pub fn handler_at(ctx: &mut UpdatePtasState, new_state: PtasState, now: i64) -> (r: Result<
    PtasStateChanged,
    AioosError,
>)
    ensures
        final(ctx).owner == old(ctx).owner,
        ({
            let step = transition(old(ctx).license@, old(ctx).owner@, new_state, now as int);
            &&& final(ctx).license@ == step.after
            &&& match r {
                Ok(event) => step.outcome == Ok::<PtasStateChangedView, AioosError>(event@),
                Err(why) => step.outcome == Err::<PtasStateChangedView, AioosError>(why),
            }
        }),
        old(ctx).license@.well_formed() ==> final(ctx).license@.well_formed(),
{
    if let Some(why) = validate(ctx, new_state) {
        return Err(why);
    }
    Ok(commit(ctx, new_state, now))
}

/// Moves the license of `ctx` to `new_state`, if its owner asks and the
/// state machine allows it, and stamps the move with the time that the
/// clock gives.
///
/// A request that is refused is refused whatever the clock says; one that
/// is not refused is served as `handler_at` serves it at the time that the
/// move is announced with, unless the clock cannot be read.
pub fn handler(ctx: &mut UpdatePtasState, new_state: PtasState) -> (r: Result<
    PtasStateChanged,
    Failure,
>)
    ensures
        final(ctx).owner == old(ctx).owner,
        match r {
            Ok(event) => transition(
                old(ctx).license@,
                old(ctx).owner@,
                new_state,
                event@.timestamp,
            ) == (Effect::<LicenseAccountView, PtasStateChangedView> {
                after: final(ctx).license@,
                outcome: Ok(event@),
            }),
            Err(Failure::Refused(why)) => {
                &&& transition_refusal(old(ctx).license@, old(ctx).owner@, new_state) == Some(why)
                &&& final(ctx).license@ == old(ctx).license@
            },
            Err(Failure::ClockUnavailable(_)) => {
                &&& transition_refusal(old(ctx).license@, old(ctx).owner@, new_state) is None
                &&& final(ctx).license@ == old(ctx).license@
            },
        },
        old(ctx).license@.well_formed() ==> final(ctx).license@.well_formed(),
{
    if let Some(why) = validate(ctx, new_state) {
        return Err(Failure::Refused(why));
    }
    match unix_timestamp() {
        Ok(now) => Ok(commit(ctx, new_state, now)),
        Err(why) => Err(Failure::ClockUnavailable(why)),
    }
}

/// No request moves a license to `Revoked`: where the owner asks it for a
/// license that is not revoked, whatever state the license is in, the
/// request is refused as an invalid transition and the license stays as it
/// is.
pub proof fn transition_to_revoked_is_refused(
    license: LicenseAccountView,
    caller: Seq<u8>,
    now: int,
)
    requires
        caller == license.owner,
        !license.revoked,
    ensures
        transition_refusal(license, caller, PtasState::Revoked) == Some(
            AioosError::InvalidStateTransition,
        ),
        transition(license, caller, PtasState::Revoked, now) == refused::<
            LicenseAccountView,
            PtasStateChangedView,
        >(license, AioosError::InvalidStateTransition),
{
}

/// The state machine decides: where the owner asks to move a license that
/// is not revoked, the request is served exactly when an edge leads from
/// the license's state to the target. The license is then in the target
/// state and otherwise as before, and the move is announced; else the
/// request is refused as an invalid transition and the license stays as it
/// is.
pub proof fn transition_follows_the_edges(
    license: LicenseAccountView,
    caller: Seq<u8>,
    target: PtasState,
    now: int,
)
    requires
        caller == license.owner,
        !license.revoked,
    ensures
        transition_refusal(license, caller, target) == if legal_edges().contains(
            (license.ptas_state, target),
        ) {
            None
        } else {
            Some(AioosError::InvalidStateTransition)
        },
        legal_edges().contains((license.ptas_state, target)) ==> transition(
            license,
            caller,
            target,
            now,
        ) == (Effect::<LicenseAccountView, PtasStateChangedView> {
            after: LicenseAccountView { ptas_state: target, ..license },
            outcome: Ok(
                PtasStateChangedView {
                    agent_id: license.agent_id,
                    old_state: license.ptas_state,
                    new_state: target,
                    timestamp: now,
                },
            ),
        }),
        !legal_edges().contains((license.ptas_state, target)) ==> transition(
            license,
            caller,
            target,
            now,
        ) == refused::<LicenseAccountView, PtasStateChangedView>(
            license,
            AioosError::InvalidStateTransition,
        ),
{
}

} // verus!

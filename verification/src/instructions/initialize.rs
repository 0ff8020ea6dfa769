//! Setting up a deployment, once.

use vstd::prelude::*;
use crate::error::AioosError;
use crate::state::{Identity, ProgramConfig, ProgramConfigView};

verus! {

/// What the setup names.
#[derive(Clone, Debug, PartialEq, Eq)]
pub struct Initialize {
    /// The record to fill.
    pub config: ProgramConfig,
    /// The caller, who becomes the deployment's authority.
    pub authority: Identity,
    /// The part of the record's storage address that is kept in it.
    pub config_bump: u8,
}

/// The configuration of a fresh deployment under `authority`: no license is
/// registered yet.
pub open spec fn bootstrap(authority: Seq<u8>, bump: u8) -> ProgramConfigView {
    ProgramConfigView { authority, total_licenses: 0, bump }
}

/// Fills the configuration record of `ctx`: the caller becomes the
/// authority, and the count of licenses starts at zero. It never fails.
pub fn handler(ctx: &mut Initialize) -> (r: Result<(), AioosError>)
    ensures
        r is Ok,
        final(ctx).config@ == bootstrap(old(ctx).authority@, old(ctx).config_bump),
        final(ctx).authority == old(ctx).authority,
        final(ctx).config_bump == old(ctx).config_bump,
{
    ctx.config.authority = ctx.authority;
    ctx.config.total_licenses = 0;
    ctx.config.bump = ctx.config_bump;
    Ok(())
}

} // verus!

//! The requests that the library serves. Each handler takes the records and
//! parties that the request names, checks the request, changes the records
//! all at once or not at all, and hands back what is to be announced.

use vstd::prelude::*;
use crate::error::AioosError;

pub mod initialize;
pub mod log_action;
pub mod register_license;
pub mod revoke_license;
pub mod update_ptas_state;

pub use crate::instructions::initialize::Initialize;
pub use crate::instructions::log_action::{ActionLogged, LogAction};
pub use crate::instructions::register_license::{LicenseRegistered, RegisterLicense};
pub use crate::instructions::revoke_license::{LicenseRevoked, RevokeLicense};
pub use crate::instructions::update_ptas_state::{PtasStateChanged, UpdatePtasState};

verus! {

/// What a request does: the record as it stands afterwards, and what the
/// caller gets back.
pub struct Effect<S, T> {
    /// The record after the request.
    pub after: S,
    /// What the request brings where it is served, or why it is refused.
    pub outcome: Result<T, AioosError>,
}

/// The effect of a request that is refused: the record stays as it is.
pub open spec fn refused<S, T>(record: S, why: AioosError) -> Effect<S, T> {
    Effect { after: record, outcome: Err(why) }
}

} // verus!

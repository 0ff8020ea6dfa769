//! Why a request is refused, and why one that is not refused may still fail.

use anchor_lang::prelude::ProgramError;
use vstd::prelude::*;

verus! {

/// The error type of `anchor_lang` for what the runtime or a program
/// reports. The library only hands such a value on.
#[verifier::external_type_specification]
#[verifier::external_body]
pub struct ExProgramError(ProgramError);

/// The reasons for which a request is refused. A refused request changes no
/// record and announces nothing.
#[derive(Clone, Copy, PartialEq, Eq, Debug, Structural)]
pub enum AioosError {
    /// The requested move is not an edge of the state machine, or aims at
    /// `Revoked`, which only a revocation reaches.
    InvalidStateTransition,
    /// The license has been revoked and can no longer be changed.
    LicenseRevoked,
    /// The caller is not the one who may make this request.
    Unauthorized,
    /// The agent identifier takes more than 64 bytes.
    AgentIdTooLong,
    /// The license type takes more than 64 bytes.
    LicenseTypeTooLong,
    /// The permission level takes more than 32 bytes.
    PermissionLevelTooLong,
    /// The jurisdiction takes more than 64 bytes.
    JurisdictionTooLong,
    /// The action takes more than 64 bytes.
    ActionTooLong,
    /// The details take more than 256 bytes.
    DetailsTooLong,
}

/// Why a handler that reads the clock did not serve a request. Either way
/// no record has changed.
#[derive(PartialEq, Eq, Debug)]
pub enum Failure {
    /// The request is refused, for the reason given.
    Refused(AioosError),
    /// The request is not refused, but the clock could not be read to stamp
    /// it. The error is the one that reading the clock gave.
    ClockUnavailable(ProgramError),
}

} // verus!

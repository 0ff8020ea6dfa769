//! The chain's clock, which stamps what the library records.

use anchor_lang::prelude::{Clock, ProgramError};
use anchor_lang::solana_program::sysvar::Sysvar;
use vstd::prelude::*;

verus! {

/// The time by the chain's clock, in seconds since the Unix epoch, or the
/// error with which the clock could not be read.
///
/// This calls `Clock::get`, the method `get` of the trait `Sysvar` that
/// `anchor_lang` hands on from `solana_program`, and picks the clock's
/// `unix_timestamp`. Nothing is claimed of the result: it is whatever the
/// runtime that executes the program says, and two calls may differ.
#[verifier::external_body]
pub(crate) fn unix_timestamp() -> (now: Result<i64, ProgramError>) {
    match Clock::get() {
        Ok(clock) => Ok(clock.unix_timestamp),
        Err(why) => Err(why),
    }
}

} // verus!

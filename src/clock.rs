use anchor_lang::prelude::{Clock, ProgramError, SolanaSysvar};
use vstd::prelude::*;

verus! {

/// The runtime's error type, as the clock sysvar reports it.
#[verifier::external_type_specification]
#[verifier::external_body]
pub struct ExProgramError(ProgramError);

/// Relies on `Sysvar::get` of solana-program's `Clock`: reads the clock
/// sysvar from the runtime and hands back its Unix timestamp, or the
/// runtime's error where it provides no clock. Nothing is promised of the
/// time itself.
#[verifier::external_body]
pub(crate) fn unix_timestamp_now() -> (r: Result<i64, ProgramError>) {
    Clock::get().map(|c| c.unix_timestamp)
}

} // verus!

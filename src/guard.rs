use vstd::prelude::*;
use crate::accounts::{CharError, Character, Principal, ProgramState, STAGE_LICENSED};

verus! {

/// Succeeds exactly when `signer` is the record's current owner.
pub fn require_owner(record: &Character, signer: &Principal) -> (r: Result<(), CharError>)
    ensures
        r is Ok <==> record.owner@ == signer@,
        r is Err ==> r == Err::<(), CharError>(CharError::NotOwner),
{
    if record.owner == *signer {
        Ok(())
    } else {
        Err(CharError::NotOwner)
    }
}

/// Succeeds exactly when `signer` is the platform administrator.
pub fn require_platform(state: &ProgramState, signer: &Principal) -> (r: Result<(), CharError>)
    ensures
        r is Ok <==> state.platform@ == signer@,
        r is Err ==> r == Err::<(), CharError>(CharError::NotOwner),
{
    if state.platform == *signer {
        Ok(())
    } else {
        Err(CharError::NotOwner)
    }
}

/// Succeeds exactly when `bps` is at most 100%.
pub fn require_fee_bound(bps: u16) -> (r: Result<(), CharError>)
    ensures
        r is Ok <==> bps <= 10000,
        r is Err ==> r == Err::<(), CharError>(CharError::FeeTooHigh),
{
    if bps <= 10000 {
        Ok(())
    } else {
        Err(CharError::FeeTooHigh)
    }
}

/// Succeeds exactly when a record at `stage` has a next stage to move to.
pub fn require_advanceable(stage: u8) -> (r: Result<(), CharError>)
    ensures
        r is Ok <==> stage < STAGE_LICENSED,
        r is Err ==> r == Err::<(), CharError>(CharError::AlreadyLicensed),
{
    if stage < STAGE_LICENSED {
        Ok(())
    } else {
        Err(CharError::AlreadyLicensed)
    }
}

} // verus!

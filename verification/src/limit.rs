//! The size limiter: the first thing every upload request passes.
use vstd::prelude::*;
use crate::error::UploadError;

verus! {

/// What the limiter decides on a request that declares `declared` bytes when the
/// configured ceiling is `ceiling`.
///
/// A ceiling of zero switches the limiter off. With a ceiling in force a request
/// must declare its length, and the length must not exceed the ceiling.
pub open spec fn admission(declared: Option<u64>, ceiling: u64) -> Result<(), UploadError> {
    if ceiling == 0 {
        Ok(())
    } else {
        match declared {
            None => Err(UploadError::LengthRequired),
            Some(n) => if n <= ceiling {
                Ok(())
            } else {
                Err(UploadError::TooLarge)
            },
        }
    }
}

/// Decides, from the declared length alone, whether a request may proceed to
/// body processing.
pub fn check_length(declared: Option<u64>, ceiling: u64) -> (outcome: Result<(), UploadError>)
    ensures
        outcome == admission(declared, ceiling),
{
    if ceiling == 0 {
        return Ok(());
    }
    match declared {
        None => Err(UploadError::LengthRequired),
        Some(n) => if n <= ceiling {
            Ok(())
        } else {
            Err(UploadError::TooLarge)
        },
    }
}

/// Every request that declares more than a positive ceiling is refused as too
/// large, and with the limiter switched off no declared length is refused.
pub proof fn limiter_refuses_exactly_oversize(declared: Option<u64>, ceiling: u64)
    ensures
        (ceiling > 0 && declared is Some && declared->0 > ceiling) <==> admission(declared, ceiling)
            == Err::<(), UploadError>(UploadError::TooLarge),
        ceiling == 0 ==> admission(declared, ceiling) is Ok,
{
}

} // verus!

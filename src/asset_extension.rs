//! The caller's view of a call's outcome: the status code that crosses the
//! boundary, turned back into a structured error.

use crate::pallet_error::{ledger_error_at, Error, LEDGER_ERROR_COUNT};
use parity_scale_codec::Error as ScaleError;
use vstd::prelude::*;

verus! {

/// Status code of a call that succeeded.
pub const SUCCESS: u32 = 0;

/// Status code of a call that failed for a reason other than the ledger's own.
pub const DISPATCH_ERROR_GENERIC: u32 = 200;

/// What a failed call reports to the caller.
#[derive(Clone, Copy, Debug, PartialEq, Eq)]
pub enum ExtensionError {
    /// The call failed, though not for one of the ledger's own reasons.
    DispatchError,
    /// The ledger rejected the operation, for the reason given.
    PalletError(Error),
    /// A buffer crossing the boundary was not in the expected binary shape.
    EncodingError,
    /// A status code that this side does not know, carried as it came.
    Other(u32),
}

/// The outcome that status code `code` stands for.
pub open spec fn status_outcome(code: u32) -> Result<(), ExtensionError> {
    if code == SUCCESS {
        Ok(())
    } else if code == DISPATCH_ERROR_GENERIC {
        Err(ExtensionError::DispatchError)
    } else {
        match ledger_error_at(code - 1) {
            Some(e) => Err(ExtensionError::PalletError(e)),
            None => Err(ExtensionError::Other(code)),
        }
    }
}

impl ExtensionError {
    /// Rebuilds the outcome of a call from its status code.
    pub fn from_status_code(status_code: u32) -> (r: Result<(), ExtensionError>)
        ensures
            r == status_outcome(status_code),
    {
        if status_code == SUCCESS {
            Ok(())
        } else if status_code == DISPATCH_ERROR_GENERIC {
            Err(ExtensionError::DispatchError)
        } else if status_code <= LEDGER_ERROR_COUNT as u32 {
            match Error::try_from(status_code as u8) {
                Ok(e) => Err(ExtensionError::PalletError(e)),
                Err(_) => Err(ExtensionError::Other(status_code)),
            }
        } else {
            proof {
                crate::pallet_error::lemma_ledger_table(status_code - 1);
            }
            Err(ExtensionError::Other(status_code))
        }
    }
}

impl From<ScaleError> for ExtensionError {
    /// A buffer that could not be decoded is an encoding failure.
    fn from(_e: ScaleError) -> (r: ExtensionError)
        ensures
            r == ExtensionError::EncodingError,
    {
        ExtensionError::EncodingError
    }
}

impl vstd::std_specs::convert::FromSpecImpl<ScaleError> for ExtensionError {
    open spec fn obeys_from_spec() -> bool {
        true
    }

    open spec fn from_spec(_e: ScaleError) -> ExtensionError {
        ExtensionError::EncodingError
    }
}

/// Every code of the ledger range names, as a ledger failure, the reason at
/// position `code - 1` of the ledger's enumeration, with no gaps in the range.
pub proof fn lemma_ledger_codes(code: u32)
    requires
        1 <= code <= LEDGER_ERROR_COUNT,
    ensures
        status_outcome(code) matches Err(ExtensionError::PalletError(e)) && e.index() == code - 1,
{
    crate::pallet_error::lemma_ledger_table(code - 1);
}

/// Code `0`, and no other, stands for success.
pub proof fn lemma_success_code(code: u32)
    ensures
        status_outcome(code) is Ok <==> code == SUCCESS,
{
}

/// Code `200` always stands for the generic failure.
pub proof fn lemma_generic_code()
    ensures
        status_outcome(DISPATCH_ERROR_GENERIC) == Err::<(), ExtensionError>(
            ExtensionError::DispatchError,
        ),
{
}

/// A code outside success, the ledger range and the generic code is reported
/// back as unrecognized, carrying the code itself.
pub proof fn lemma_unrecognized_code(code: u32)
    requires
        code != SUCCESS,
        code != DISPATCH_ERROR_GENERIC,
        !(1 <= code <= LEDGER_ERROR_COUNT),
    ensures
        status_outcome(code) == Err::<(), ExtensionError>(ExtensionError::Other(code)),
{
    crate::pallet_error::lemma_ledger_table(code - 1);
}

} // verus!

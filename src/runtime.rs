//! The host side of the boundary: decodes an incoming call for exactly the
//! operation its identifier names, and folds the ledger's outcome into a
//! status code.
//!
//! Running the ledger primitive itself is left to the host, between
//! [`AssetExtension::call`], which says which primitive to run under which
//! asserted identity, and [`AssetExtension::get_retval`], which reports what
//! came of it.

use crate::asset_extension::{
    status_outcome, ExtensionError, DISPATCH_ERROR_GENERIC, SUCCESS,
};
use crate::catalog::{decode_args, decode_operation, is_catalog_id, Operation};
use crate::pallet_error::{ledger_error_at, lemma_ledger_table, LEDGER_ERROR_COUNT};
use vstd::prelude::*;

verus! {

/// Added to the ledger's error position to give its status code.
pub const PALLET_ERROR_OFFSET: u32 = 1;

/// Index of the ledger's module among the host's modules.
pub const PALLET_ASSET_INDEX: u8 = 9;

/// What a ledger primitive returned.
#[derive(Clone, Copy, Debug, PartialEq, Eq)]
pub enum RawOutcome {
    /// The operation was applied.
    Success,
    /// A module of the host rejected the operation: which module, and the
    /// position of the reason in that module's error enumeration.
    ModuleFailure { module_index: u8, error_index: u8 },
    /// The operation failed for a reason that names no module.
    OtherFailure,
}

/// A call that the host refuses outright, with no status code.
#[derive(Clone, Copy, Debug, PartialEq, Eq)]
pub enum DispatchFault {
    /// The identifier is not in the catalog: the two sides disagree on it.
    UnknownFunction(u16),
    /// The argument buffer does not hold the operation's arguments exactly.
    Serialization,
}

/// The status code that reports outcome `o`.
pub open spec fn retval_of(o: RawOutcome) -> u32 {
    match o {
        RawOutcome::Success => SUCCESS,
        RawOutcome::ModuleFailure { module_index, error_index } => if module_index
            == PALLET_ASSET_INDEX && error_index < LEDGER_ERROR_COUNT {
            (PALLET_ERROR_OFFSET + error_index) as u32
        } else {
            DISPATCH_ERROR_GENERIC
        },
        RawOutcome::OtherFailure => DISPATCH_ERROR_GENERIC,
    }
}

/// The host's handler of the operation catalog.
#[derive(Clone, Copy, Debug, Default)]
pub struct AssetExtension;

impl AssetExtension {
    /// Folds the ledger's outcome into a status code: `0` for success, the
    /// ledger's own reasons at their position plus one, `200` for the rest.
    pub fn get_retval(pallet_res: RawOutcome) -> (r: u32)
        ensures
            r == retval_of(pallet_res),
    {
        match pallet_res {
            RawOutcome::Success => SUCCESS,
            RawOutcome::ModuleFailure { module_index, error_index } => {
                if module_index == PALLET_ASSET_INDEX && error_index < LEDGER_ERROR_COUNT {
                    PALLET_ERROR_OFFSET + error_index as u32
                } else {
                    DISPATCH_ERROR_GENERIC
                }
            },
            RawOutcome::OtherFailure => DISPATCH_ERROR_GENERIC,
        }
    }

    /// Decodes the call `func_id` with arguments `input` into the operation
    /// that the ledger is to run. The operation's `caller` is the identity that
    /// the calling context asserted: it is taken as the signer, with no check
    /// of its own. An unknown identifier, and a buffer that does not hold the
    /// arguments exactly, are refused before any operation is produced.
    pub fn call(&self, func_id: u16, input: &[u8]) -> (r: Result<Operation, DispatchFault>)
        ensures
            !is_catalog_id(func_id) ==> r == Err::<Operation, DispatchFault>(
                DispatchFault::UnknownFunction(func_id),
            ),
            is_catalog_id(func_id) ==> match decode_args(func_id, input@) {
                Some(v) => r matches Ok(op) && op@ == v,
                None => r == Err::<Operation, DispatchFault>(DispatchFault::Serialization),
            },
    {
        if func_id < crate::catalog::TRANSFER_KEEP_ALIVE
            || func_id > crate::catalog::TRANSFER_APPROVED {
            return Err(DispatchFault::UnknownFunction(func_id));
        }
        match decode_operation(func_id, input) {
            Some(op) => Ok(op),
            None => Err(DispatchFault::Serialization),
        }
    }

    /// The host serves this catalog.
    pub fn enabled() -> (r: bool)
        ensures
            r,
    {
        true
    }
}

/// What the caller rebuilds from the status code of an outcome is that
/// outcome: success as success; a reason of the ledger's module within its
/// enumeration as that very reason; any other failure, from another module or
/// of no module at all, as the generic failure.
pub proof fn lemma_outcome_across_boundary(o: RawOutcome)
    ensures
        o is Success ==> status_outcome(retval_of(o)) == Ok::<(), ExtensionError>(()),
        o matches RawOutcome::ModuleFailure { module_index, error_index } ==> (module_index
            == PALLET_ASSET_INDEX && error_index < LEDGER_ERROR_COUNT ==> status_outcome(
            retval_of(o),
        ) == Err::<(), ExtensionError>(
            ExtensionError::PalletError(ledger_error_at(error_index as int).unwrap()),
        )),
{
    if let RawOutcome::ModuleFailure { module_index, error_index } = o {
        lemma_ledger_table(error_index as int);
    }
}

/// A failure that does not come from the ledger's own module always reaches
/// the caller as the generic failure, whichever module or subsystem it came
/// from.
pub proof fn lemma_foreign_failure_is_generic(o: RawOutcome)
    requires
        !(o is Success),
        o matches RawOutcome::ModuleFailure { module_index, .. } ==> module_index
            != PALLET_ASSET_INDEX,
    ensures
        retval_of(o) == DISPATCH_ERROR_GENERIC,
        status_outcome(retval_of(o)) == Err::<(), ExtensionError>(ExtensionError::DispatchError),
{
}

} // verus!

//! The caller's side of the boundary: a proxy bound to one asset that turns
//! each operation of the catalog into the identifier and argument bytes to
//! send across.
//!
//! The identity of the caller comes from the calling context and is passed in
//! as it is. The status code that comes back is read with
//! [`ExtensionError::from_status_code`](crate::asset_extension::ExtensionError::from_status_code).

use crate::catalog::{encode_args, operation_id, Operation, OperationView};
use crate::wire::AccountId;
use vstd::prelude::*;

verus! {

/// A call ready to cross the boundary: the operation's identifier and its
/// argument bytes.
#[derive(Clone, Debug, PartialEq, Eq)]
pub struct ExtensionCall {
    pub func_id: u16,
    pub input: Vec<u8>,
}

/// The call that carries operation `op`.
fn call_for(op: Operation) -> (r: ExtensionCall)
    ensures
        r.func_id == operation_id(op@),
        r.input@ == encode_args(op@),
{
    ExtensionCall { func_id: op.func_id(), input: op.encode() }
}

/// A caller's proxy for the operations of the catalog on one asset.
#[derive(Clone, Copy, Debug, PartialEq, Eq)]
pub struct AssetExtension {
    /// The asset that every call of this proxy is about.
    pub asset_id: u32,
}

impl AssetExtension {
    /// A proxy for asset `asset_id`.
    pub fn new(asset_id: u32) -> (r: Self)
        ensures
            r.asset_id == asset_id,
    {
        AssetExtension { asset_id }
    }

    /// The asset this proxy acts on.
    pub fn asset_id(&self) -> (r: u32)
        ensures
            r == self.asset_id,
    {
        self.asset_id
    }

    /// Moves `amount` from `caller` to `target`, keeping the sender's account
    /// at or above the asset's minimum balance.
    pub fn transfer_keep_alive(&self, caller: AccountId, target: AccountId, amount: u128) -> (r:
        ExtensionCall)
        ensures
            r.func_id == crate::catalog::TRANSFER_KEEP_ALIVE,
            r.input@ == encode_args(
                OperationView::TransferKeepAlive {
                    asset: self.asset_id as nat,
                    caller: caller@,
                    target: target@,
                    amount: amount as nat,
                },
            ),
    {
        call_for(Operation::TransferKeepAlive { asset_id: self.asset_id, caller, target, amount })
    }

    /// Moves `amount` from `caller` to `target`, even where the sender's
    /// account is removed.
    pub fn transfer_allow_death(&self, caller: AccountId, target: AccountId, amount: u128) -> (r:
        ExtensionCall)
        ensures
            r.func_id == crate::catalog::TRANSFER_ALLOW_DEATH,
            r.input@ == encode_args(
                OperationView::TransferAllowDeath {
                    asset: self.asset_id as nat,
                    caller: caller@,
                    target: target@,
                    amount: amount as nat,
                },
            ),
    {
        call_for(Operation::TransferAllowDeath { asset_id: self.asset_id, caller, target, amount })
    }

    /// Lets `delegate` move up to `amount` on behalf of `caller`.
    pub fn approve_transfer(&self, caller: AccountId, delegate: AccountId, amount: u128) -> (r:
        ExtensionCall)
        ensures
            r.func_id == crate::catalog::APPROVE_TRANSFER,
            r.input@ == encode_args(
                OperationView::ApproveTransfer {
                    asset: self.asset_id as nat,
                    caller: caller@,
                    delegate: delegate@,
                    amount: amount as nat,
                },
            ),
    {
        call_for(Operation::ApproveTransfer { asset_id: self.asset_id, caller, delegate, amount })
    }

    /// Withdraws whatever `caller` had approved for `delegate`.
    pub fn cancel_approval(&self, caller: AccountId, delegate: AccountId) -> (r: ExtensionCall)
        ensures
            r.func_id == crate::catalog::CANCEL_APPROVAL,
            r.input@ == encode_args(
                OperationView::CancelApproval {
                    asset: self.asset_id as nat,
                    caller: caller@,
                    delegate: delegate@,
                },
            ),
    {
        call_for(Operation::CancelApproval { asset_id: self.asset_id, caller, delegate })
    }

    /// Has `caller`, as an approved delegate, move `amount` from `owner` to
    /// `destination`.
    pub fn transfer_approved(
        &self,
        caller: AccountId,
        owner: AccountId,
        destination: AccountId,
        amount: u128,
    ) -> (r: ExtensionCall)
        ensures
            r.func_id == crate::catalog::TRANSFER_APPROVED,
            r.input@ == encode_args(
                OperationView::TransferApproved {
                    asset: self.asset_id as nat,
                    caller: caller@,
                    owner: owner@,
                    target: destination@,
                    amount: amount as nat,
                },
            ),
    {
        call_for(
            Operation::TransferApproved {
                asset_id: self.asset_id,
                caller,
                owner,
                target: destination,
                amount,
            },
        )
    }
}

} // verus!

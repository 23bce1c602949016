//! The closed catalog of operations that a caller may invoke on the ledger,
//! their numeric identifiers, and the positional encoding of their arguments.

use crate::wire::{
    byte_bound, decode_account_at, decode_u128_at, decode_u32_at, encode_account, encode_u128,
    encode_u32, le_bytes, le_value, lemma_byte_bounds, lemma_le_round_trip, AccountId};
use vstd::prelude::*;

verus! {

/// Identifier of the keep-alive transfer.
pub const TRANSFER_KEEP_ALIVE: u16 = 120;

/// Identifier of the transfer that may remove the sender's account.
pub const TRANSFER_ALLOW_DEATH: u16 = 121;

/// Identifier of the approval of a delegated transfer.
pub const APPROVE_TRANSFER: u16 = 122;

/// Identifier of the cancellation of an approval.
pub const CANCEL_APPROVAL: u16 = 123;

/// Identifier of the transfer made by an approved delegate.
pub const TRANSFER_APPROVED: u16 = 124;

/// Encoded length of a transfer-shaped argument tuple: an asset, two accounts, an amount.
pub const TRANSFER_ARGS_LEN: usize = 84;

/// Encoded length of the arguments of a cancellation: an asset and two accounts.
pub const CANCEL_ARGS_LEN: usize = 68;

/// Encoded length of the arguments of an approved transfer: an asset, three
/// accounts and an amount.
pub const APPROVED_ARGS_LEN: usize = 116;

/// One call of the catalog with its arguments, in their declared order.
/// `caller` is the identity that the calling context asserts.
#[derive(Clone, Copy, Debug, PartialEq, Eq)]
pub enum Operation {
    /// Moves `amount` to `target`; refused where the sender would fall below
    /// the asset's minimum balance.
    TransferKeepAlive { asset_id: u32, caller: AccountId, target: AccountId, amount: u128 },
    /// Moves `amount` to `target`, removing the sender's account if it empties.
    TransferAllowDeath { asset_id: u32, caller: AccountId, target: AccountId, amount: u128 },
    /// Lets `delegate` move up to `amount` on the caller's behalf.
    ApproveTransfer { asset_id: u32, caller: AccountId, delegate: AccountId, amount: u128 },
    /// Withdraws the approval granted to `delegate`.
    CancelApproval { asset_id: u32, caller: AccountId, delegate: AccountId },
    /// The caller, as approved delegate, moves `amount` from `owner` to `target`.
    TransferApproved {
        asset_id: u32,
        caller: AccountId,
        owner: AccountId,
        target: AccountId,
        amount: u128,
    },
}

/// The mathematical value of an [`Operation`]: numbers as naturals, accounts as
/// byte sequences.
pub ghost enum OperationView {
    TransferKeepAlive { asset: nat, caller: Seq<u8>, target: Seq<u8>, amount: nat },
    TransferAllowDeath { asset: nat, caller: Seq<u8>, target: Seq<u8>, amount: nat },
    ApproveTransfer { asset: nat, caller: Seq<u8>, delegate: Seq<u8>, amount: nat },
    CancelApproval { asset: nat, caller: Seq<u8>, delegate: Seq<u8> },
    TransferApproved { asset: nat, caller: Seq<u8>, owner: Seq<u8>, target: Seq<u8>, amount: nat },
}

impl View for Operation {
    type V = OperationView;

    open spec fn view(&self) -> OperationView {
        match *self {
            Operation::TransferKeepAlive { asset_id, caller, target, amount } =>
                OperationView::TransferKeepAlive {
                    asset: asset_id as nat,
                    caller: caller@,
                    target: target@,
                    amount: amount as nat,
                },
            Operation::TransferAllowDeath { asset_id, caller, target, amount } =>
                OperationView::TransferAllowDeath {
                    asset: asset_id as nat,
                    caller: caller@,
                    target: target@,
                    amount: amount as nat,
                },
            Operation::ApproveTransfer { asset_id, caller, delegate, amount } =>
                OperationView::ApproveTransfer {
                    asset: asset_id as nat,
                    caller: caller@,
                    delegate: delegate@,
                    amount: amount as nat,
                },
            Operation::CancelApproval { asset_id, caller, delegate } =>
                OperationView::CancelApproval {
                    asset: asset_id as nat,
                    caller: caller@,
                    delegate: delegate@,
                },
            Operation::TransferApproved { asset_id, caller, owner, target, amount } =>
                OperationView::TransferApproved {
                    asset: asset_id as nat,
                    caller: caller@,
                    owner: owner@,
                    target: target@,
                    amount: amount as nat,
                },
        }
    }
}

/// Whether `id` names an operation of the catalog.
pub open spec fn is_catalog_id(id: u16) -> bool {
    TRANSFER_KEEP_ALIVE <= id <= TRANSFER_APPROVED
}

/// The identifier of an operation.
pub open spec fn operation_id(v: OperationView) -> u16 {
    match v {
        OperationView::TransferKeepAlive { .. } => TRANSFER_KEEP_ALIVE,
        OperationView::TransferAllowDeath { .. } => TRANSFER_ALLOW_DEATH,
        OperationView::ApproveTransfer { .. } => APPROVE_TRANSFER,
        OperationView::CancelApproval { .. } => CANCEL_APPROVAL,
        OperationView::TransferApproved { .. } => TRANSFER_APPROVED,
    }
}

/// The asserted identity of the one who calls.
pub open spec fn origin_of(v: OperationView) -> Seq<u8> {
    match v {
        OperationView::TransferKeepAlive { caller, .. } => caller,
        OperationView::TransferAllowDeath { caller, .. } => caller,
        OperationView::ApproveTransfer { caller, .. } => caller,
        OperationView::CancelApproval { caller, .. } => caller,
        OperationView::TransferApproved { caller, .. } => caller,
    }
}

/// Whether every field fits the width it is encoded in.
pub open spec fn well_formed(v: OperationView) -> bool {
    match v {
        OperationView::TransferKeepAlive { asset, caller, target, amount }
        | OperationView::TransferAllowDeath { asset, caller, target, amount } => asset
            < byte_bound(4) && caller.len() == 32 && target.len() == 32 && amount < byte_bound(
            16,
        ),
        OperationView::ApproveTransfer { asset, caller, delegate, amount } => asset < byte_bound(
            4,
        ) && caller.len() == 32 && delegate.len() == 32 && amount < byte_bound(16),
        OperationView::CancelApproval { asset, caller, delegate } => asset < byte_bound(4)
            && caller.len() == 32 && delegate.len() == 32,
        OperationView::TransferApproved { asset, caller, owner, target, amount } => asset
            < byte_bound(4) && caller.len() == 32 && owner.len() == 32 && target.len() == 32
            && amount < byte_bound(16),
    }
}

/// The argument bytes of an operation: each field in declared order, with no
/// padding and no length prefix.
pub open spec fn encode_args(v: OperationView) -> Seq<u8> {
    match v {
        OperationView::TransferKeepAlive { asset, caller, target, amount }
        | OperationView::TransferAllowDeath { asset, caller, target, amount } => le_bytes(asset, 4)
            + caller + target + le_bytes(amount, 16),
        OperationView::ApproveTransfer { asset, caller, delegate, amount } => le_bytes(asset, 4)
            + caller + delegate + le_bytes(amount, 16),
        OperationView::CancelApproval { asset, caller, delegate } => le_bytes(asset, 4) + caller
            + delegate,
        OperationView::TransferApproved { asset, caller, owner, target, amount } => le_bytes(
            asset,
            4,
        ) + caller + owner + target + le_bytes(amount, 16),
    }
}

/// The operation that `b` encodes under identifier `id`, if `b` has exactly the
/// length of that operation's arguments.
pub open spec fn decode_args(id: u16, b: Seq<u8>) -> Option<OperationView> {
    let asset = le_value(b.subrange(0, 4));
    let first = b.subrange(4, 36);
    let second = b.subrange(36, 68);
    if id == TRANSFER_KEEP_ALIVE || id == TRANSFER_ALLOW_DEATH || id == APPROVE_TRANSFER {
        if b.len() == TRANSFER_ARGS_LEN {
            let amount = le_value(b.subrange(68, 84));
            Some(
                if id == TRANSFER_KEEP_ALIVE {
                    OperationView::TransferKeepAlive { asset, caller: first, target: second, amount }
                } else if id == TRANSFER_ALLOW_DEATH {
                    OperationView::TransferAllowDeath { asset, caller: first, target: second, amount }
                } else {
                    OperationView::ApproveTransfer { asset, caller: first, delegate: second, amount }
                },
            )
        } else {
            None
        }
    } else if id == CANCEL_APPROVAL {
        if b.len() == CANCEL_ARGS_LEN {
            Some(OperationView::CancelApproval { asset, caller: first, delegate: second })
        } else {
            None
        }
    } else if id == TRANSFER_APPROVED {
        if b.len() == APPROVED_ARGS_LEN {
            Some(
                OperationView::TransferApproved {
                    asset,
                    caller: first,
                    owner: second,
                    target: b.subrange(68, 100),
                    amount: le_value(b.subrange(100, 116)),
                },
            )
        } else {
            None
        }
    } else {
        None
    }
}

/// Round trip: the arguments of a well-formed operation, decoded under its own
/// identifier, give the operation back unchanged.
pub proof fn lemma_args_round_trip(v: OperationView)
    requires
        well_formed(v),
    ensures
        decode_args(operation_id(v), encode_args(v)) == Some(v),
{
    let b = encode_args(v);
    match v {
        OperationView::TransferKeepAlive { asset, caller, target, amount }
        | OperationView::TransferAllowDeath { asset, caller, target, amount }
        | OperationView::ApproveTransfer { asset, caller, delegate: target, amount } => {
            lemma_le_round_trip(asset, 4);
            lemma_le_round_trip(amount, 16);
            assert(b.subrange(0, 4) =~= le_bytes(asset, 4));
            assert(b.subrange(4, 36) =~= caller);
            assert(b.subrange(36, 68) =~= target);
            assert(b.subrange(68, 84) =~= le_bytes(amount, 16));
        },
        OperationView::CancelApproval { asset, caller, delegate } => {
            lemma_le_round_trip(asset, 4);
            assert(b.subrange(0, 4) =~= le_bytes(asset, 4));
            assert(b.subrange(4, 36) =~= caller);
            assert(b.subrange(36, 68) =~= delegate);
        },
        OperationView::TransferApproved { asset, caller, owner, target, amount } => {
            lemma_le_round_trip(asset, 4);
            lemma_le_round_trip(amount, 16);
            assert(b.subrange(0, 4) =~= le_bytes(asset, 4));
            assert(b.subrange(4, 36) =~= caller);
            assert(b.subrange(36, 68) =~= owner);
            assert(b.subrange(68, 100) =~= target);
            assert(b.subrange(100, 116) =~= le_bytes(amount, 16));
        },
    }
}

/// Every operation that the library can hold is well formed, so its argument
/// bytes decode under its identifier to the operation itself.
pub proof fn lemma_operation_round_trip(op: Operation)
    ensures
        well_formed(op@),
        decode_args(operation_id(op@), encode_args(op@)) == Some(op@),
{
    lemma_byte_bounds();
    lemma_args_round_trip(op@);
}

impl Operation {
    /// The identifier under which this operation is called.
    pub fn func_id(&self) -> (r: u16)
        ensures
            r == operation_id(self@),
    {
        match self {
            Operation::TransferKeepAlive { .. } => TRANSFER_KEEP_ALIVE,
            Operation::TransferAllowDeath { .. } => TRANSFER_ALLOW_DEATH,
            Operation::ApproveTransfer { .. } => APPROVE_TRANSFER,
            Operation::CancelApproval { .. } => CANCEL_APPROVAL,
            Operation::TransferApproved { .. } => TRANSFER_APPROVED,
        }
    }

    /// The identity under which the ledger runs this operation: the caller's,
    /// as the calling context asserted it.
    pub fn origin(&self) -> (r: AccountId)
        ensures
            r@ == origin_of(self@),
    {
        match *self {
            Operation::TransferKeepAlive { caller, .. } => caller,
            Operation::TransferAllowDeath { caller, .. } => caller,
            Operation::ApproveTransfer { caller, .. } => caller,
            Operation::CancelApproval { caller, .. } => caller,
            Operation::TransferApproved { caller, .. } => caller,
        }
    }

    /// The argument bytes of this operation.
    pub fn encode(&self) -> (r: Vec<u8>)
        ensures
            r@ == encode_args(self@),
    {
        match *self {
            Operation::TransferKeepAlive { asset_id, caller, target, amount }
            | Operation::TransferAllowDeath { asset_id, caller, target, amount }
            | Operation::ApproveTransfer { asset_id, caller, delegate: target, amount } => {
                let mut out = encode_u32(asset_id);
                out.append(&mut encode_account(&caller));
                out.append(&mut encode_account(&target));
                out.append(&mut encode_u128(amount));
                out
            },
            Operation::CancelApproval { asset_id, caller, delegate } => {
                let mut out = encode_u32(asset_id);
                out.append(&mut encode_account(&caller));
                out.append(&mut encode_account(&delegate));
                out
            },
            Operation::TransferApproved { asset_id, caller, owner, target, amount } => {
                let mut out = encode_u32(asset_id);
                out.append(&mut encode_account(&caller));
                out.append(&mut encode_account(&owner));
                out.append(&mut encode_account(&target));
                out.append(&mut encode_u128(amount));
                out
            },
        }
    }
}

/// Decodes the arguments of operation `id` from `input`, which must hold them
/// exactly: `None` for an identifier outside the catalog, a short buffer or
/// trailing bytes.
pub fn decode_operation(id: u16, input: &[u8]) -> (r: Option<Operation>)
    ensures
        r is Some <==> decode_args(id, input@) is Some,
        r matches Some(op) ==> decode_args(id, input@) == Some(op@),
{
    let n = input.len();
    if id == TRANSFER_KEEP_ALIVE || id == TRANSFER_ALLOW_DEATH || id == APPROVE_TRANSFER {
        if n != TRANSFER_ARGS_LEN {
            return None;
        }
        let asset_id = match decode_u32_at(input, 0) {
            Ok(v) => v,
            Err(_) => return None,
        };
        let caller = match decode_account_at(input, 4) {
            Ok(v) => v,
            Err(_) => return None,
        };
        let second = match decode_account_at(input, 36) {
            Ok(v) => v,
            Err(_) => return None,
        };
        let amount = match decode_u128_at(input, 68) {
            Ok(v) => v,
            Err(_) => return None,
        };
        if id == TRANSFER_KEEP_ALIVE {
            Some(Operation::TransferKeepAlive { asset_id, caller, target: second, amount })
        } else if id == TRANSFER_ALLOW_DEATH {
            Some(Operation::TransferAllowDeath { asset_id, caller, target: second, amount })
        } else {
            Some(Operation::ApproveTransfer { asset_id, caller, delegate: second, amount })
        }
    } else if id == CANCEL_APPROVAL {
        if n != CANCEL_ARGS_LEN {
            return None;
        }
        let asset_id = match decode_u32_at(input, 0) {
            Ok(v) => v,
            Err(_) => return None,
        };
        let caller = match decode_account_at(input, 4) {
            Ok(v) => v,
            Err(_) => return None,
        };
        let delegate = match decode_account_at(input, 36) {
            Ok(v) => v,
            Err(_) => return None,
        };
        Some(Operation::CancelApproval { asset_id, caller, delegate })
    } else if id == TRANSFER_APPROVED {
        if n != APPROVED_ARGS_LEN {
            return None;
        }
        let asset_id = match decode_u32_at(input, 0) {
            Ok(v) => v,
            Err(_) => return None,
        };
        let caller = match decode_account_at(input, 4) {
            Ok(v) => v,
            Err(_) => return None,
        };
        let owner = match decode_account_at(input, 36) {
            Ok(v) => v,
            Err(_) => return None,
        };
        let target = match decode_account_at(input, 68) {
            Ok(v) => v,
            Err(_) => return None,
        };
        let amount = match decode_u128_at(input, 100) {
            Ok(v) => v,
            Err(_) => return None,
        };
        Some(Operation::TransferApproved { asset_id, caller, owner, target, amount })
    } else {
        None
    }
}

} // verus!

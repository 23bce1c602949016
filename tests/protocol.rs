use asset_extension::asset_extension::{ExtensionError, DISPATCH_ERROR_GENERIC};
use asset_extension::catalog::{decode_operation, Operation};
use asset_extension::contract::{AssetExtension, ExtensionCall};
use asset_extension::pallet_error::Error;
use asset_extension::runtime::{self, DispatchFault, RawOutcome, PALLET_ASSET_INDEX};
use asset_extension::wire::AccountId;
use parity_scale_codec::{Decode, Encode};

const ENV_CALLER_ACCOUNT: [u8; 32] = [1_u8; 32];
const ASSET_ID: u32 = 1_u32;

/// A ledger that counts how often it is invoked and answers with a fixed outcome.
struct LedgerDouble {
    calls: u32,
    answer: RawOutcome,
    last: Option<Operation>,
}

impl LedgerDouble {
    fn new(answer: RawOutcome) -> Self {
        LedgerDouble { calls: 0, answer, last: None }
    }

    fn apply(&mut self, op: Operation) -> RawOutcome {
        self.calls += 1;
        self.last = Some(op);
        self.answer
    }
}

/// Runs one call through the host: decode, ledger, status code.
fn host_round(ledger: &mut LedgerDouble, call: &ExtensionCall) -> Result<u32, DispatchFault> {
    let host = runtime::AssetExtension;
    let op = host.call(call.func_id, &call.input)?;
    Ok(runtime::AssetExtension::get_retval(ledger.apply(op)))
}

fn caller() -> AccountId {
    AccountId(ENV_CALLER_ACCOUNT)
}

fn all_calls(ext: &AssetExtension, a: AccountId, b: AccountId, amount: u128) -> Vec<ExtensionCall> {
    vec![
        ext.cancel_approval(caller(), a),
        ext.approve_transfer(caller(), a, amount),
        ext.transfer_keep_alive(caller(), a, amount),
        ext.transfer_allow_death(caller(), a, amount),
        ext.transfer_approved(caller(), a, b, amount),
    ]
}

#[test]
fn transfer_asset() {
    let asset_extension = AssetExtension::new(ASSET_ID);
    let target = AccountId([20; 32]);
    let amount = 100_u128;

    let call = asset_extension.transfer_keep_alive(caller(), target, amount);
    let mut expected_input: Vec<u8> = vec![];
    expected_input.append(&mut ASSET_ID.encode());
    expected_input.append(&mut ENV_CALLER_ACCOUNT.encode());
    expected_input.append(&mut target.0.encode());
    expected_input.append(&mut amount.encode());
    assert_eq!(call.func_id, 120);
    assert_eq!(call.input, expected_input);

    let mut ledger = LedgerDouble::new(RawOutcome::Success);
    let status = host_round(&mut ledger, &call).unwrap();
    assert_eq!(ExtensionError::from_status_code(status), Ok(()));
}

#[test]
fn transfer_error() {
    let asset_extension = AssetExtension::new(ASSET_ID);
    let call = asset_extension.transfer_keep_alive(caller(), AccountId([10; 32]), 100);
    assert_eq!(call.func_id, 120);
    assert_eq!(
        ExtensionError::from_status_code(6),
        Err(ExtensionError::PalletError(Error::InUse))
    );
}

#[test]
fn all_extension_call_pass() {
    let asset_extension = AssetExtension::new(ASSET_ID);
    let acc_a = AccountId([10; 32]);
    let acc_b = AccountId([20; 32]);
    let calls = all_calls(&asset_extension, acc_a, acc_b, 100_u128);
    let ids: Vec<u16> = calls.iter().map(|c| c.func_id).collect();
    assert_eq!(ids, vec![123, 122, 120, 121, 124]);
    for call in &calls {
        let mut ledger = LedgerDouble::new(RawOutcome::Success);
        let status = host_round(&mut ledger, call).unwrap();
        assert_eq!(ledger.calls, 1);
        assert_eq!(ExtensionError::from_status_code(status), Ok(()));
    }
}

#[test]
fn all_extension_call_fail() {
    const STATUS_CODE: u32 = 70;
    let asset_extension = AssetExtension::new(ASSET_ID);
    let calls = all_calls(&asset_extension, AccountId([10; 32]), AccountId([20; 32]), 100_u128);
    let err = ExtensionError::Other(STATUS_CODE);
    assert_eq!(calls.len(), 5);
    for _call in &calls {
        assert_eq!(ExtensionError::from_status_code(STATUS_CODE), Err(err));
    }
}

#[test]
fn encoding_matches_scale_tuples() {
    let ext = AssetExtension::new(0xDEAD_BEEF);
    let (c, a, b) = ([3u8; 32], [4u8; 32], [5u8; 32]);
    let amount: u128 = 0x0102_0304_0506_0708_090A_0B0C_0D0E_0F10;
    let call = ext.transfer_approved(AccountId(c), AccountId(a), AccountId(b), amount);
    assert_eq!(call.input, (0xDEAD_BEEFu32, c, a, b, amount).encode());
    assert_eq!(call.input.len(), 116);
    let call = ext.cancel_approval(AccountId(c), AccountId(a));
    assert_eq!(call.input, (0xDEAD_BEEFu32, c, a).encode());
    assert_eq!(&call.input[0..4], &[0xEF, 0xBE, 0xAD, 0xDE]);
    let call = ext.transfer_allow_death(AccountId(c), AccountId(a), amount);
    assert_eq!(call.input, (0xDEAD_BEEFu32, c, a, amount).encode());
    assert_eq!(call.input[68], 0x10);
    assert_eq!(call.input[83], 0x01);
}

#[test]
fn every_operation_round_trips() {
    let (c, a, b) = (AccountId([7; 32]), AccountId([8; 32]), AccountId([9; 32]));
    let ops = vec![
        Operation::TransferKeepAlive { asset_id: 1, caller: c, target: a, amount: 100 },
        Operation::TransferAllowDeath { asset_id: u32::MAX, caller: c, target: a, amount: u128::MAX },
        Operation::ApproveTransfer { asset_id: 0, caller: c, delegate: b, amount: 0 },
        Operation::CancelApproval { asset_id: 77, caller: c, delegate: b },
        Operation::TransferApproved { asset_id: 5, caller: c, owner: a, target: b, amount: 1 << 100 },
    ];
    for op in ops {
        let bytes = op.encode();
        assert_eq!(decode_operation(op.func_id(), &bytes), Some(op));
        let host = runtime::AssetExtension;
        assert_eq!(host.call(op.func_id(), &bytes), Ok(op));
    }
}

#[test]
fn ledger_codes_name_their_position() {
    let table = [
        Error::BalanceLow,
        Error::NoAccount,
        Error::NoPermission,
        Error::Unknown,
        Error::Frozen,
        Error::InUse,
        Error::BadWitness,
        Error::MinBalanceZero,
        Error::UnavailableConsumer,
        Error::BadMetadata,
        Error::Unapproved,
        Error::WouldDie,
        Error::AlreadyExists,
        Error::NoDeposit,
        Error::WouldBurn,
        Error::LiveAsset,
        Error::AssetNotLive,
        Error::IncorrectStatus,
        Error::NotFrozen,
        Error::CallbackFailed,
    ];
    for code in 1..=20u32 {
        let e = table[(code - 1) as usize];
        assert_eq!(ExtensionError::from_status_code(code), Err(ExtensionError::PalletError(e)));
        assert_eq!(Error::try_from(code as u8), Ok(e));
    }
    assert_eq!(Error::try_from(0u8), Err(()));
    assert_eq!(Error::try_from(21u8), Err(()));
}

#[test]
fn only_zero_is_success() {
    assert_eq!(ExtensionError::from_status_code(0), Ok(()));
    for code in [1u32, 20, 21, 70, 200, 256, u32::MAX] {
        assert!(ExtensionError::from_status_code(code).is_err());
    }
}

#[test]
fn foreign_failures_are_generic() {
    for outcome in [
        RawOutcome::OtherFailure,
        RawOutcome::ModuleFailure { module_index: 3, error_index: 2 },
        RawOutcome::ModuleFailure { module_index: 10, error_index: 0 },
    ] {
        let status = runtime::AssetExtension::get_retval(outcome);
        assert_eq!(status, 200);
        assert_eq!(ExtensionError::from_status_code(status), Err(ExtensionError::DispatchError));
    }
    assert_eq!(DISPATCH_ERROR_GENERIC, 200);
}

#[test]
fn ledger_reason_outside_table_is_generic() {
    let outcome = RawOutcome::ModuleFailure { module_index: PALLET_ASSET_INDEX, error_index: 20 };
    assert_eq!(runtime::AssetExtension::get_retval(outcome), 200);
    let outcome = RawOutcome::ModuleFailure { module_index: PALLET_ASSET_INDEX, error_index: 255 };
    assert_eq!(runtime::AssetExtension::get_retval(outcome), 200);
}

#[test]
fn other_codes_are_unrecognized() {
    for code in [21u32, 70, 199, 201, 255, 256, 257, 276, u32::MAX] {
        assert_eq!(ExtensionError::from_status_code(code), Err(ExtensionError::Other(code)));
    }
}

#[test]
fn unknown_operation_is_a_hard_failure() {
    let mut ledger = LedgerDouble::new(RawOutcome::Success);
    let call = ExtensionCall { func_id: 999, input: vec![0u8; 84] };
    assert_eq!(host_round(&mut ledger, &call), Err(DispatchFault::UnknownFunction(999)));
    let call = ExtensionCall { func_id: 119, input: vec![0u8; 84] };
    assert_eq!(host_round(&mut ledger, &call), Err(DispatchFault::UnknownFunction(119)));
    let call = ExtensionCall { func_id: 125, input: vec![0u8; 116] };
    assert_eq!(host_round(&mut ledger, &call), Err(DispatchFault::UnknownFunction(125)));
    assert_eq!(ledger.calls, 0);
}

#[test]
fn keep_alive_transfer_accepted() {
    let a = AccountId([0xAA; 32]);
    let b = AccountId([0xBB; 32]);
    let call = AssetExtension::new(1).transfer_keep_alive(a, b, 100);
    let mut ledger = LedgerDouble::new(RawOutcome::Success);
    let status = host_round(&mut ledger, &call).unwrap();
    assert_eq!(status, 0);
    assert_eq!(
        ledger.last,
        Some(Operation::TransferKeepAlive { asset_id: 1, caller: a, target: b, amount: 100 })
    );
    assert_eq!(ExtensionError::from_status_code(status), Ok(()));
}

#[test]
fn keep_alive_transfer_rejected_by_ledger() {
    let call = AssetExtension::new(1).transfer_keep_alive(caller(), AccountId([2; 32]), 1_000_000);
    let mut ledger = LedgerDouble::new(RawOutcome::ModuleFailure {
        module_index: PALLET_ASSET_INDEX,
        error_index: 6,
    });
    let status = host_round(&mut ledger, &call).unwrap();
    assert_eq!(status, 7);
    assert_eq!(
        ExtensionError::from_status_code(status),
        Err(ExtensionError::PalletError(Error::BadWitness))
    );
}

#[test]
fn transport_fault_is_unrecognized() {
    assert_eq!(ExtensionError::from_status_code(70), Err(ExtensionError::Other(70)));
}

#[test]
fn truncated_approval_is_refused_before_the_ledger() {
    let mut ledger = LedgerDouble::new(RawOutcome::Success);
    let mut call = AssetExtension::new(1).approve_transfer(caller(), AccountId([3; 32]), 5);
    assert_eq!(call.func_id, 122);
    call.input.truncate(83);
    assert_eq!(host_round(&mut ledger, &call), Err(DispatchFault::Serialization));
    call.input.clear();
    assert_eq!(host_round(&mut ledger, &call), Err(DispatchFault::Serialization));
    assert_eq!(ledger.calls, 0);
}

#[test]
fn trailing_bytes_are_refused() {
    let mut ledger = LedgerDouble::new(RawOutcome::Success);
    let mut call = AssetExtension::new(1).cancel_approval(caller(), AccountId([3; 32]));
    call.input.push(0);
    assert_eq!(host_round(&mut ledger, &call), Err(DispatchFault::Serialization));
    let call = ExtensionCall { func_id: 124, input: vec![0u8; 84] };
    assert_eq!(host_round(&mut ledger, &call), Err(DispatchFault::Serialization));
    assert_eq!(ledger.calls, 0);
}

#[test]
fn asserted_identity_is_forwarded_unchecked() {
    let stranger = AccountId([0xFF; 32]);
    let owner = AccountId([0x11; 32]);
    let target = AccountId([0x22; 32]);
    let call = AssetExtension::new(9).transfer_approved(stranger, owner, target, 3);
    let host = runtime::AssetExtension;
    let op = host.call(call.func_id, &call.input).unwrap();
    assert_eq!(op.origin(), stranger);
    assert_eq!(
        op,
        Operation::TransferApproved { asset_id: 9, caller: stranger, owner, target, amount: 3 }
    );
}

#[test]
fn codec_failure_is_an_encoding_error() {
    let short: &[u8] = &[1, 2];
    let e = u32::decode(&mut &short[..]).unwrap_err();
    assert_eq!(ExtensionError::from(e), ExtensionError::EncodingError);
}

#[test]
fn proxy_keeps_its_asset() {
    let ext = AssetExtension::new(42);
    assert_eq!(ext.asset_id(), 42);
    assert!(runtime::AssetExtension::enabled());
}

/// A small linear congruential generator, for reproducible arbitrary values.
struct Lcg(u64);

impl Lcg {
    fn next_u64(&mut self) -> u64 {
        self.0 = self.0.wrapping_mul(6364136223846793005).wrapping_add(1442695040888963407);
        self.0
    }

    fn account(&mut self) -> AccountId {
        let mut a = [0u8; 32];
        for b in a.iter_mut() {
            *b = (self.next_u64() >> 56) as u8;
        }
        AccountId(a)
    }
}

#[test]
fn arbitrary_tuples_round_trip() {
    let mut g = Lcg(0x5EED);
    for round in 0..200u32 {
        let asset_id = g.next_u64() as u32;
        let amount = ((g.next_u64() as u128) << 64) | g.next_u64() as u128;
        let (c, a, b) = (g.account(), g.account(), g.account());
        let op = match round % 5 {
            0 => Operation::TransferKeepAlive { asset_id, caller: c, target: a, amount },
            1 => Operation::TransferAllowDeath { asset_id, caller: c, target: a, amount },
            2 => Operation::ApproveTransfer { asset_id, caller: c, delegate: a, amount },
            3 => Operation::CancelApproval { asset_id, caller: c, delegate: a },
            _ => Operation::TransferApproved { asset_id, caller: c, owner: a, target: b, amount },
        };
        let bytes = op.encode();
        assert_eq!(decode_operation(op.func_id(), &bytes), Some(op));
    }
}

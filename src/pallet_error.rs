//! The ledger's own failure reasons, in the order of the ledger's error
//! enumeration. Status codes `1..=20` name them by position.

use vstd::prelude::*;

verus! {

/// Why the ledger rejected an operation.
#[derive(Clone, Copy, Debug, PartialEq, Eq)]
pub enum Error {
    /// Account balance must be greater than or equal to the transfer amount.
    BalanceLow,
    /// The account to alter does not exist.
    NoAccount,
    /// The signing account has no permission to do the operation.
    NoPermission,
    /// The given asset ID is unknown.
    Unknown,
    /// The origin account is frozen.
    Frozen,
    /// The asset ID is already taken.
    InUse,
    /// Invalid witness data given.
    BadWitness,
    /// Minimum balance should be non-zero.
    MinBalanceZero,
    /// Unable to increment the consumer reference counters on the account.
    UnavailableConsumer,
    /// Invalid metadata given.
    BadMetadata,
    /// No approval exists that would allow the transfer.
    Unapproved,
    /// The source account would not survive the transfer and it needs to stay alive.
    WouldDie,
    /// The asset-account already exists.
    AlreadyExists,
    /// The asset-account doesn't have an associated deposit.
    NoDeposit,
    /// The operation would result in funds being burned.
    WouldBurn,
    /// The asset is a live asset and is actively being used.
    LiveAsset,
    /// The asset is not live, and likely being destroyed.
    AssetNotLive,
    /// The asset status is not the expected status.
    IncorrectStatus,
    /// The asset should be frozen before the given operation.
    NotFrozen,
    /// Callback action resulted in error.
    CallbackFailed,
}

/// Number of reasons in the ledger's error enumeration.
pub const LEDGER_ERROR_COUNT: u8 = 20;

/// The reason at position `i` (from zero) of the enumeration, if there is one.
pub open spec fn ledger_error_at(i: int) -> Option<Error> {
    if i == 0 {
        Some(Error::BalanceLow)
    } else if i == 1 {
        Some(Error::NoAccount)
    } else if i == 2 {
        Some(Error::NoPermission)
    } else if i == 3 {
        Some(Error::Unknown)
    } else if i == 4 {
        Some(Error::Frozen)
    } else if i == 5 {
        Some(Error::InUse)
    } else if i == 6 {
        Some(Error::BadWitness)
    } else if i == 7 {
        Some(Error::MinBalanceZero)
    } else if i == 8 {
        Some(Error::UnavailableConsumer)
    } else if i == 9 {
        Some(Error::BadMetadata)
    } else if i == 10 {
        Some(Error::Unapproved)
    } else if i == 11 {
        Some(Error::WouldDie)
    } else if i == 12 {
        Some(Error::AlreadyExists)
    } else if i == 13 {
        Some(Error::NoDeposit)
    } else if i == 14 {
        Some(Error::WouldBurn)
    } else if i == 15 {
        Some(Error::LiveAsset)
    } else if i == 16 {
        Some(Error::AssetNotLive)
    } else if i == 17 {
        Some(Error::IncorrectStatus)
    } else if i == 18 {
        Some(Error::NotFrozen)
    } else if i == 19 {
        Some(Error::CallbackFailed)
    } else {
        None
    }
}

impl Error {
    /// Position of this reason in the enumeration, from zero.
    pub open spec fn index(self) -> int {
        match self {
            Error::BalanceLow => 0,
            Error::NoAccount => 1,
            Error::NoPermission => 2,
            Error::Unknown => 3,
            Error::Frozen => 4,
            Error::InUse => 5,
            Error::BadWitness => 6,
            Error::MinBalanceZero => 7,
            Error::UnavailableConsumer => 8,
            Error::BadMetadata => 9,
            Error::Unapproved => 10,
            Error::WouldDie => 11,
            Error::AlreadyExists => 12,
            Error::NoDeposit => 13,
            Error::WouldBurn => 14,
            Error::LiveAsset => 15,
            Error::AssetNotLive => 16,
            Error::IncorrectStatus => 17,
            Error::NotFrozen => 18,
            Error::CallbackFailed => 19,
        }
    }
}

impl TryFrom<u8> for Error {
    type Error = ();

    /// The reason whose code, its position plus one, is `code`.
    fn try_from(code: u8) -> (r: Result<Error, Self::Error>)
        ensures
            r == (match ledger_error_at(code - 1) {
                Some(e) => Ok(e),
                None => Err(()),
            }),
    {
        match code {
            1 => Ok(Error::BalanceLow),
            2 => Ok(Error::NoAccount),
            3 => Ok(Error::NoPermission),
            4 => Ok(Error::Unknown),
            5 => Ok(Error::Frozen),
            6 => Ok(Error::InUse),
            7 => Ok(Error::BadWitness),
            8 => Ok(Error::MinBalanceZero),
            9 => Ok(Error::UnavailableConsumer),
            10 => Ok(Error::BadMetadata),
            11 => Ok(Error::Unapproved),
            12 => Ok(Error::WouldDie),
            13 => Ok(Error::AlreadyExists),
            14 => Ok(Error::NoDeposit),
            15 => Ok(Error::WouldBurn),
            16 => Ok(Error::LiveAsset),
            17 => Ok(Error::AssetNotLive),
            18 => Ok(Error::IncorrectStatus),
            19 => Ok(Error::NotFrozen),
            20 => Ok(Error::CallbackFailed),
            _ => Err(()),
        }
    }
}

impl vstd::std_specs::convert::TryFromSpecImpl<u8> for Error {
    open spec fn obeys_try_from_spec() -> bool {
        true
    }

    open spec fn try_from_spec(code: u8) -> Result<Error, ()> {
        match ledger_error_at(code - 1) {
            Some(e) => Ok(e),
            None => Err(()),
        }
    }
}

/// The table has no gaps: exactly the positions `0..20` hold a reason, and the
/// reason found at a position reports that position back.
pub proof fn lemma_ledger_table(i: int)
    ensures
        ledger_error_at(i) is Some <==> 0 <= i < LEDGER_ERROR_COUNT,
        ledger_error_at(i) matches Some(e) ==> e.index() == i,
{
}

} // verus!

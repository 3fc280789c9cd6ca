//! The errors that the adapters report.

use vstd::prelude::*;

verus! {

/// A generic error carrying a message, as the contracts' standard error does.
#[derive(Debug, Clone, PartialEq, Eq)]
pub enum StdError {
    GenericErr { msg: String },
    /// A checked addition overflowed.
    Overflow,
    /// A value that the contract's storage should hold is not there.
    NotFound,
}

impl StdError {
    /// An error with the given message.
    pub fn generic_err(msg: &str) -> (e: StdError)
        ensures
            e matches StdError::GenericErr { msg: m } && m@ == msg@,
    {
        StdError::GenericErr { msg: msg.to_owned() }
    }
}

/// Why the funds attached to a message were refused.
#[derive(Debug, Clone, PartialEq, Eq)]
pub enum PaymentError {
    /// No coin, or a single coin of amount zero, was sent.
    NoFunds,
    /// More than one coin was sent.
    MultipleDenoms,
}

/// The errors of the adapter contracts.
#[derive(Debug, Clone, PartialEq, Eq)]
pub enum ContractError {
    Std(StdError),
    Payment(PaymentError),
    /// An amount or a price does not fit in its type.
    Overflow,
    Unauthorized,
    SwapOperationsEmpty,
    RoutesEmpty,
    CoinInDenomMismatch,
    CoinOutDenomMismatch,
    AssetNotNative,
    SwapOperationDenomMismatch,
    ConversionError,
    SmartSwapUnsupported,
    SmartSwapUnexpectedOut,
    NoOfferAssetAmount,
    MaxSpreadAssertion,
    InvalidPoolAsset,
    InvalidPoolType,
    PoolIdParseError,
    ParseIntPoolID,
    SimulationError,
    UnsupportedDenom,
    TokenOutNotFound,
    TokenInNotFound,
    SpotPriceNotFound,
    NoLiquidityToParse,
    InvalidFund,
    InvalidNativeCoin,
    InvalidCw20Coin,
    MissingResponseData,
    NoFundsToRefund,
    AckIDAlreadyExists { channel_id: String, sequence_id: u64 },
    FailedToDecodePacketData,
    IbcFeesRequired,
    /// A transfer that cannot pay IBC fees was given some.
    IbcFeesNotSupported,
    /// The receiver of a transfer encoded for the EVM is not an EVM address.
    InvalidEvmAddress,
    ChannelIDNotFound,
    SequenceNotFound,
    /// The contract aborts (panics) on this input: an arithmetic overflow or a
    /// division by zero in an unchecked operation, an index out of range, or a case
    /// that the contract leaves unimplemented.
    Aborted,
}

} // verus!

use vstd::prelude::*;

verus! {

/// Why an action was refused. Every refusal aborts the whole transaction,
/// so no state change of the refused action persists.
#[derive(Debug, Clone, Copy, PartialEq, Eq, Structural)]
pub enum BridgeError {
    AlreadyInitialized,
    InvalidMultisig,
    InvalidPauser,
    InvalidExecutor,
    InvalidAdapter,
    InvalidProtocolCaller,
    InvalidRootAdapter,
    InvalidFeeRecipient,
    InvalidFeeChain,
    InvalidCallerContract,
    /// The multisig program holds no `true` confirmation for this transaction.
    NotConfirmed,
    /// Pausing and unpausing must come from an account, not from a program.
    CallerNotAccount,
    NotPauser,
    AlreadyPaused,
    NotPaused,
    Paused,
    InvalidRecipient,
    InvalidGaslessReward,
    ChainDisabled,
    /// A deposit must carry exactly one payment.
    NoPayment,
    PaymentNotNative,
    InvalidAmount,
    NoBinding,
    MalformedBinding,
    InvalidBinding,
    BelowMinimum,
    BindingDisabled,
    FeeExceedsAmount,
    InvalidReferrerFee,
    AmountBelowGaslessReward,
    /// An amount or balance left the range of `i64`.
    Overflow,
    CallerNotProgram,
    NotExecutor,
    CallerContractMismatch,
    InsufficientBalance,
    NotAllowed,
    NoAdapter,
    InvalidChainId,
    InvalidExecutionAsset,
    InvalidBindingParameter,
    InvalidReferrer,
    InvalidContract,
    InvalidCaller,
    CoinBridgeNotSet,
    TokenBridgeNotSet,
    WrappedTokenBridgeNotSet,
    NotRootAdapter,
}

} // verus!

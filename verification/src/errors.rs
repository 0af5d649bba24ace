use vstd::prelude::*;

verus! {

/// Every way an operation of the core policy module can fail.  Each check is
/// evaluated eagerly at the start of its operation; the first failing check
/// aborts the whole operation with no partial mutation.
#[derive(Clone, Copy, Debug, PartialEq, Eq, Structural)]
pub enum StablecoinError {
    /// Caller does not have the required role.
    Unauthorized,
    /// This feature was not enabled during initialization.
    FeatureNotEnabled,
    /// System is paused.
    SystemPaused,
    /// Minting quota exceeded for current window.
    QuotaExceeded,
    /// Address is already blacklisted.
    AlreadyBlacklisted,
    /// Address is not blacklisted.
    NotBlacklisted,
    /// Account must be frozen before seizure.
    AccountNotFrozen,
    /// Target must be blacklisted before seizure.
    TargetNotBlacklisted,
    /// Name exceeds the maximum length.
    NameTooLong,
    /// Symbol exceeds the maximum length.
    SymbolTooLong,
    /// URI exceeds the maximum length.
    UriTooLong,
    /// Transfer hook program must be provided when the feature is enabled.
    InvalidTransferHookProgram,
    /// Missing extra account metas record.
    MissingExtraAccountMetas,
    /// Extra account metas record does not match the expected address.
    InvalidExtraAccountMetas,
    /// Reason exceeds the maximum length.
    ReasonTooLong,
    /// Invalid role bitmask.
    InvalidRoles,
    /// Cannot transfer authority to self.
    SelfTransfer,
    /// Insufficient token balance.
    InsufficientBalance,
    /// Arithmetic overflow.
    Overflow,
    /// Account is frozen and cannot perform this action.
    AccountFrozen,
}

/// Every way the transfer-validation module can reject a transfer.
#[derive(Clone, Copy, Debug, PartialEq, Eq, Structural)]
pub enum TransferHookError {
    /// Transfer denied by blacklist.
    TransferDenied,
    /// Transfer hook feature not enabled.
    FeatureNotEnabled,
    /// Invalid extra account metas account.
    InvalidExtraAccountMetas,
    /// Invalid core program account.
    InvalidCoreProgram,
    /// Invalid configuration account.
    InvalidConfig,
    /// Invalid transfer hook program id.
    InvalidHookProgram,
    /// Invalid blacklist entry account.
    InvalidBlacklistEntry,
}

} // verus!
